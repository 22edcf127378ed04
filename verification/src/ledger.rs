use vstd::prelude::*;

use crate::account::{bytes_copy, default_subaccount_v, fee_collector_v, Account, AccountV};
use crate::account_store::{lemma_lookup_le_sum, lookup, sum_balances, unique_keys, AccountStore, EntryV};
use crate::errors::TransactionError;
use crate::tx_log::{Memo, Operation, OperationV, Transaction, TransactionLog, TransactionV};

verus! {

/// The fixed transfer fee, in minor units.
pub const DEFAULT_TRANSFER_FEE: u128 = 10_000;

/// How far in the future a supplied creation time may lie, in nanoseconds.
pub const PERMITTED_DRIFT_NANOS: u64 = 60_000_000_000;

/// How far in the past a supplied creation time may lie, in nanoseconds.
pub const TX_WINDOW_NANOS: u64 = 86_400_000_000_000;

/// The longest memo a transfer accepts, in bytes.
pub const MAX_MEMO_LENGTH: usize = 32;

/// Everything a caller supplies to a transfer. The sender is the caller's own
/// account under `from_subaccount` (the default sub-account when absent); the
/// fee, when given, must equal the fixed fee.
pub struct TransferArg {
    pub from_subaccount: Option<Vec<u8>>,
    pub to: Account,
    pub amount: u128,
    pub fee: Option<u128>,
    pub memo: Option<Memo>,
    pub created_at_time: Option<u64>,
}

/// Mathematical model of a transfer argument.
#[verifier::ext_equal]
pub struct TransferArgV {
    pub from_subaccount: Option<Seq<u8>>,
    pub to: AccountV,
    pub amount: u128,
    pub fee: Option<u128>,
    pub memo: Option<Seq<u8>>,
    pub created_at_time: Option<u64>,
}

impl View for TransferArg {
    type V = TransferArgV;

    open spec fn view(&self) -> TransferArgV {
        TransferArgV {
            from_subaccount: match self.from_subaccount {
                Some(s) => Some(s@),
                None => None,
            },
            to: self.to@,
            amount: self.amount,
            fee: self.fee,
            memo: match self.memo {
                Some(m) => Some(m@),
                None => None,
            },
            created_at_time: self.created_at_time,
        }
    }
}

/// Argument of a balance query.
pub struct AccountBalanceArgs {
    pub account: Account,
}

/// The account a transfer draws from: the caller's identity under the chosen
/// sub-account, or the default sub-account when none was chosen.
pub open spec fn resolved_from(caller: Seq<u8>, arg: TransferArgV) -> AccountV {
    AccountV {
        owner: caller,
        subaccount: match arg.from_subaccount {
            Some(s) => s,
            None => default_subaccount_v(),
        },
    }
}

/// The ledger: the single writer of an account store and a transaction log,
/// plus the configured fixed fee and the cached total supply. Well-formedness
/// ties the cache to the store: the total supply equals the sum of every
/// balance, fee collector included.
pub struct Ledger {
    pub balances: AccountStore,
    pub transactions: TransactionLog,
    pub total_supply: u128,
    pub transfer_fee: u128,
}

impl Ledger {
    /// The closed-ledger conservation invariant: account keys are unique and
    /// the cached total supply is exactly the sum of all balances.
    pub open spec fn wf(&self) -> bool {
        &&& unique_keys(self.balances@)
        &&& self.total_supply as int == sum_balances(self.balances@)
    }

    /// The balance of `a`: zero for an account without an entry.
    pub open spec fn spec_balance(&self, a: AccountV) -> u128 {
        lookup(self.balances@, a)
    }

    /// An empty ledger with the default fee: no balances, no records, zero
    /// supply.
    pub fn new() -> (r: Ledger)
        ensures
            r.wf(),
            r.balances@ == Seq::<EntryV>::empty(),
            r.transactions@ == Seq::<TransactionV>::empty(),
            r.total_supply == 0,
            r.transfer_fee == DEFAULT_TRANSFER_FEE,
    {
        Ledger::with_fee(DEFAULT_TRANSFER_FEE)
    }

    /// An empty ledger whose fixed fee is configured by the deployment.
    pub fn with_fee(fee: u128) -> (r: Ledger)
        ensures
            r.wf(),
            r.balances@ == Seq::<EntryV>::empty(),
            r.transactions@ == Seq::<TransactionV>::empty(),
            r.total_supply == 0,
            r.transfer_fee == fee,
    {
        Ledger {
            balances: AccountStore::new(),
            transactions: TransactionLog::new(),
            total_supply: 0,
            transfer_fee: fee,
        }
    }

    /// The balance of the given account; never fails.
    pub fn account_balance(&self, args: AccountBalanceArgs) -> (r: u128)
        requires
            self.wf(),
        ensures
            r == self.spec_balance(args.account@),
    {
        self.balances.get(&args.account)
    }

    /// What `transfer` returns, decided entirely by the state before the call:
    /// validation in order — a zero amount or a wrong explicit fee is a
    /// `BadFee`; a creation time beyond the drift is `CreatedInFuture`, one
    /// past the retention window is `TooOld`; a balance below amount plus fee
    /// is `InsufficientFunds` — and otherwise the new record's position.
    pub open spec fn spec_transfer_outcome(
        pre: Ledger,
        caller: Seq<u8>,
        now: u64,
        arg: TransferArgV,
    ) -> Result<u64, TransactionError> {
        let from = resolved_from(caller, arg);
        if arg.amount == 0 {
            Result::Err(TransactionError::BadFee)
        } else if arg.fee matches Some(f) && f != pre.transfer_fee {
            Result::Err(TransactionError::BadFee)
        } else if arg.created_at_time matches Some(t) && t > now + PERMITTED_DRIFT_NANOS {
            Result::Err(TransactionError::CreatedInFuture { ledger_time: now })
        } else if arg.created_at_time matches Some(t) && t + TX_WINDOW_NANOS < now {
            Result::Err(TransactionError::TooOld)
        } else if pre.spec_balance(from) < arg.amount + pre.transfer_fee {
            Result::Err(TransactionError::InsufficientFunds { balance: pre.spec_balance(from) })
        } else {
            Result::Ok(pre.transactions@.len() as u64)
        }
    }

    /// What a successful transfer does, as one indivisible step: the sender
    /// loses amount plus fee, the destination gains the amount, the fee
    /// collector gains the fee, no other balance moves, the total supply does
    /// not move, and exactly one `Transfer` record lands at the end of the
    /// log.
    pub open spec fn spec_transfer_effect(
        pre: Ledger,
        post: Ledger,
        caller: Seq<u8>,
        now: u64,
        arg: TransferArgV,
    ) -> bool {
        let from = resolved_from(caller, arg);
        let amount = arg.amount as int;
        let fee = pre.transfer_fee as int;
        &&& post.total_supply == pre.total_supply
        &&& post.transfer_fee == pre.transfer_fee
        &&& post.transactions@ == pre.transactions@.push(
            TransactionV {
                operation: OperationV::Transfer {
                    from,
                    to: arg.to,
                    amount: arg.amount,
                    fee: pre.transfer_fee,
                },
                created_at_time: now,
                caller,
                memo: arg.memo,
            },
        )
        &&& forall|b: AccountV|
            #![trigger post.spec_balance(b)]
            post.spec_balance(b) as int == pre.spec_balance(b) - (
            if b == from {
                amount + fee
            } else {
                0
            }) + (
            if b == arg.to {
                amount
            } else {
                0
            }) + (
            if b == fee_collector_v() {
                fee
            } else {
                0
            })
    }

    /// Move `arg.amount` from the caller's account to `arg.to`, routing the
    /// fixed fee to the fee collector, and append the `Transfer` record; the
    /// returned receipt is the record's position, which is the log length
    /// just before the call. Validation comes first, so a failed call leaves
    /// the ledger exactly as it was.
    pub fn transfer(&mut self, caller: &Vec<u8>, now: u64, arg: TransferArg) -> (r: Result<
        u64,
        TransactionError,
    >)
        requires
            old(self).wf(),
            arg.from_subaccount matches Some(s) ==> s@.len() == 32,
            arg.memo matches Some(m) ==> m@.len() <= MAX_MEMO_LENGTH,
        ensures
            final(self).wf(),
            r == Ledger::spec_transfer_outcome(*old(self), caller@, now, arg@),
            r is Ok ==> Ledger::spec_transfer_effect(*old(self), *final(self), caller@, now, arg@),
            r is Err ==> *final(self) == *old(self),
    {
        let ghost pre = *self;
        let ghost argv = arg@;
        let from = Account {
            owner: bytes_copy(caller),
            subaccount: match &arg.from_subaccount {
                Some(s) => bytes_copy(s),
                None => Account::default_subaccount(),
            },
        };
        proof {
            assert(from@ =~= resolved_from(caller@, arg@));
        }

        if arg.amount == 0 {
            return Result::Err(TransactionError::BadFee);
        }

        let fee: u128 = match arg.fee {
            Some(f) => {
                if f != self.transfer_fee {
                    return Result::Err(TransactionError::BadFee);
                }
                f
            },
            None => self.transfer_fee,
        };

        match arg.created_at_time {
            Some(t) => {
                if t > now && t - now > PERMITTED_DRIFT_NANOS {
                    return Result::Err(TransactionError::CreatedInFuture { ledger_time: now });
                }
                if now > t && now - t > TX_WINDOW_NANOS {
                    return Result::Err(TransactionError::TooOld);
                }
            },
            None => {},
        }

        let balance = self.balances.get(&from);
        if arg.amount > u128::MAX - fee || balance < arg.amount + fee {
            return Result::Err(TransactionError::InsufficientFunds { balance });
        }
        let total = arg.amount + fee;

        // All validation has passed; from here to the end nothing can fail.
        match self.balances.debit(&from, total) {
            Ok(()) => {},
            Err(_) => {
                return unreached();
            },
        }
        let ghost st1 = self.balances@;

        proof {
            lemma_lookup_le_sum(st1, argv.to);
            assert(lookup(st1, argv.to) + argv.amount <= u128::MAX);
        }
        match self.balances.credit(&arg.to, arg.amount) {
            Ok(()) => {},
            Err(_) => {
                return unreached();
            },
        }
        let ghost st2 = self.balances@;

        let fee_acct = Account::fee_collector();
        proof {
            lemma_lookup_le_sum(st2, fee_collector_v());
            assert(lookup(st2, fee_collector_v()) + fee <= u128::MAX);
        }
        match self.balances.credit(&fee_acct, fee) {
            Ok(()) => {},
            Err(_) => {
                return unreached();
            },
        }
        let ghost st3 = self.balances@;

        let idx: u64 = self.transactions.len() as u64;
        let record = Transaction {
            operation: Operation::Transfer { from, to: arg.to, amount: arg.amount, fee },
            created_at_time: now,
            caller: bytes_copy(caller),
            memo: arg.memo,
        };
        proof {
            assert(record@ =~= TransactionV {
                operation: OperationV::Transfer {
                    from: resolved_from(caller@, argv),
                    to: argv.to,
                    amount: argv.amount,
                    fee: pre.transfer_fee,
                },
                created_at_time: now,
                caller: caller@,
                memo: argv.memo,
            });
        }
        self.transactions.append(record);

        proof {
            let from_v = resolved_from(caller@, argv);
            let amount = argv.amount as int;
            let fee_i = pre.transfer_fee as int;
            assert forall|b: AccountV|
                #![trigger self.spec_balance(b)]
                self.spec_balance(b) as int == pre.spec_balance(b) - (
                if b == from_v {
                    amount + fee_i
                } else {
                    0
                }) + (
                if b == argv.to {
                    amount
                } else {
                    0
                }) + (
                if b == fee_collector_v() {
                    fee_i
                } else {
                    0
                }) by {
                assert(lookup(st1, b) == if b == from_v {
                    (lookup(pre.balances@, b) - total) as u128
                } else {
                    lookup(pre.balances@, b)
                });
                assert(lookup(st2, b) == if b == argv.to {
                    (lookup(st1, b) + argv.amount) as u128
                } else {
                    lookup(st1, b)
                });
                assert(lookup(st3, b) == if b == fee_collector_v() {
                    (lookup(st2, b) + fee) as u128
                } else {
                    lookup(st2, b)
                });
            }
            assert(Ledger::spec_transfer_effect(pre, *self, caller@, now, argv));
        }
        Result::Ok(idx)
    }

    /// Credit `to` with freshly minted supply and append the `Mint` record;
    /// the receipt is the record's position, which is the log length just
    /// before the call. The caller answers for the new supply still fitting
    /// the balance type.
    pub fn mint(&mut self, caller: &Vec<u8>, now: u64, to: Account, amount: u128) -> (r: u64)
        requires
            old(self).wf(),
            old(self).total_supply + amount <= u128::MAX,
        ensures
            final(self).wf(),
            r == old(self).transactions@.len() as u64,
            final(self).transactions@ == old(self).transactions@.push(
                TransactionV {
                    operation: OperationV::Mint { to: to@, amount },
                    created_at_time: now,
                    caller: caller@,
                    memo: None,
                },
            ),
            final(self).total_supply == old(self).total_supply + amount,
            final(self).transfer_fee == old(self).transfer_fee,
            forall|b: AccountV|
                #![trigger final(self).spec_balance(b)]
                final(self).spec_balance(b) as int == old(self).spec_balance(b) + (
                if b == to@ {
                    amount as int
                } else {
                    0
                }),
    {
        proof {
            lemma_lookup_le_sum(self.balances@, to@);
            assert(lookup(self.balances@, to@) + amount <= u128::MAX);
        }
        match self.balances.credit(&to, amount) {
            Ok(()) => {},
            Err(_) => {
                return unreached();
            },
        }

        let idx: u64 = self.transactions.len() as u64;
        let record = Transaction {
            operation: Operation::Mint { to, amount },
            created_at_time: now,
            caller: bytes_copy(caller),
            memo: None,
        };
        self.transactions.append(record);
        self.total_supply = self.total_supply + amount;
        idx
    }
}

/// Conservation: a well-formed ledger's total supply is exactly the sum of
/// every account balance, the fee collector's included. Every operation
/// preserves well-formedness, so this holds after any sequence of successful
/// mints and transfers.
pub proof fn lemma_conservation(l: Ledger)
    requires
        l.wf(),
    ensures
        l.total_supply as int == sum_balances(l.balances@),
{
}

/// No balance outruns the supply: under conservation, every single balance —
/// a non-negative count of minor units by its type — is at most the total
/// supply.
pub proof fn lemma_balance_bounded(l: Ledger, a: AccountV)
    requires
        l.wf(),
    ensures
        l.spec_balance(a) <= l.total_supply,
{
    lemma_lookup_le_sum(l.balances@, a);
}

/// Fee routing: a successful transfer of amount `A` between three pairwise
/// distinct accounts — sender, destination, fee collector — moves exactly
/// `A` plus the configured fee out of the sender, `A` into the destination,
/// and the fee into the fee collector.
pub proof fn lemma_fee_routing(
    pre: Ledger,
    post: Ledger,
    caller: Seq<u8>,
    now: u64,
    arg: TransferArgV,
)
    requires
        Ledger::spec_transfer_effect(pre, post, caller, now, arg),
        resolved_from(caller, arg) != arg.to,
        resolved_from(caller, arg) != fee_collector_v(),
        arg.to != fee_collector_v(),
    ensures
        post.spec_balance(resolved_from(caller, arg)) as int == pre.spec_balance(
            resolved_from(caller, arg),
        ) - arg.amount - pre.transfer_fee,
        post.spec_balance(arg.to) as int == pre.spec_balance(arg.to) + arg.amount,
        post.spec_balance(fee_collector_v()) as int == pre.spec_balance(fee_collector_v())
            + pre.transfer_fee,
{
    assert(post.spec_balance(resolved_from(caller, arg)) as int == pre.spec_balance(
        resolved_from(caller, arg),
    ) - arg.amount - pre.transfer_fee);
    assert(post.spec_balance(arg.to) as int == pre.spec_balance(arg.to) + arg.amount);
    assert(post.spec_balance(fee_collector_v()) as int == pre.spec_balance(fee_collector_v())
        + pre.transfer_fee);
}

/// Monotonic log: a successful operation returns the log length just before
/// it ran and appends one record, and the log only ever grows; so of two
/// successful operations, the later one returns the strictly larger index.
pub proof fn lemma_monotonic_log(pre1: Ledger, post1: Ledger, i1: u64, pre2: Ledger, i2: u64)
    requires
        i1 as nat == pre1.transactions@.len(),
        post1.transactions@.len() == pre1.transactions@.len() + 1,
        post1.transactions@.len() <= pre2.transactions@.len(),
        i2 as nat == pre2.transactions@.len(),
    ensures
        i2 > i1,
{
}

} // verus!
