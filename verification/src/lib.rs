//! The accounting core of a token ledger: per-account balances, fee-bearing
//! transfers, minting, an append-only transaction log, and token metadata.
//!
//! The `Ledger` type owns an `AccountStore` and a `TransactionLog` and is the
//! only writer of either; the host is expected to serialize calls, and every
//! mutating operation validates before it mutates, so a failed call leaves the
//! ledger unchanged. The closed-ledger conservation invariant — total supply
//! equals the sum of all balances, fee collector included — is part of the
//! ledger's well-formedness and is preserved by every operation.

pub mod account;
pub mod account_store;
pub mod errors;
pub mod ledger;
pub mod metadata;
pub mod records;
pub mod requests;
pub mod routing;
pub mod tx_log;
pub mod uuid;

use vstd::prelude::*;

use crate::errors::TransactionError;
use crate::ledger::{AccountBalanceArgs, Ledger, TransferArg, MAX_MEMO_LENGTH};
use crate::metadata::{spec_metadata, MetadataRegistry, MetadataValue};

verus! {

/// A wire shape of a transfer result with both slots present, kept for
/// clients that expect it.
pub struct TransferResult {
    pub ok: u64,
    pub err: TransactionError,
}

/// Apply a transfer to `ledger` on behalf of `caller` at host time `now`.
pub fn transfer(ledger: &mut Ledger, caller: &Vec<u8>, now: u64, arg: TransferArg) -> (r: Result<
    u64,
    TransactionError,
>)
    requires
        old(ledger).wf(),
        arg.from_subaccount matches Some(s) ==> s@.len() == 32,
        arg.memo matches Some(m) ==> m@.len() <= MAX_MEMO_LENGTH,
    ensures
        final(ledger).wf(),
        r == Ledger::spec_transfer_outcome(*old(ledger), caller@, now, arg@),
        r is Ok ==> Ledger::spec_transfer_effect(*old(ledger), *final(ledger), caller@, now, arg@),
        r is Err ==> *final(ledger) == *old(ledger),
{
    ledger.transfer(caller, now, arg)
}

/// The balance of the named account; zero for an unknown account.
pub fn balance_of(ledger: &Ledger, args: AccountBalanceArgs) -> (r: u128)
    requires
        ledger.wf(),
    ensures
        r == ledger.spec_balance(args.account@),
{
    ledger.account_balance(args)
}

/// The cached total supply, which well-formedness ties to the sum of all
/// balances.
pub fn total_supply(ledger: &Ledger) -> (r: u128)
    ensures
        r == ledger.total_supply,
{
    ledger.total_supply
}

/// The fixed metadata table, computed on first read and cached.
pub fn metadata(registry: &mut MetadataRegistry) -> (r: Vec<(String, MetadataValue)>)
    requires
        old(registry).wf(),
    ensures
        final(registry).wf(),
        spec_metadata(r@),
{
    registry.metadata()
}

} // verus!
