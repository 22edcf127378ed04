use vstd::prelude::*;

use crate::account::{Account, AccountV};

verus! {

/// An optional memo: an opaque, caller-supplied byte blob.
pub type Memo = Vec<u8>;

/// What a transaction did: a fee-bearing transfer between accounts, a mint of
/// new supply, or a burn of existing supply.
#[derive(Debug, PartialEq, Eq)]
pub enum Operation {
    Transfer { from: Account, to: Account, amount: u128, fee: u128 },
    Mint { to: Account, amount: u128 },
    Burn { from: Account, amount: u128, memo: Option<Memo> },
}

/// Mathematical model of an operation.
#[verifier::ext_equal]
pub enum OperationV {
    Transfer { from: AccountV, to: AccountV, amount: u128, fee: u128 },
    Mint { to: AccountV, amount: u128 },
    Burn { from: AccountV, amount: u128, memo: Option<Seq<u8>> },
}

impl View for Operation {
    type V = OperationV;

    open spec fn view(&self) -> OperationV {
        match self {
            Operation::Transfer { from, to, amount, fee } => OperationV::Transfer {
                from: from@,
                to: to@,
                amount: *amount,
                fee: *fee,
            },
            Operation::Mint { to, amount } => OperationV::Mint { to: to@, amount: *amount },
            Operation::Burn { from, amount, memo } => OperationV::Burn {
                from: from@,
                amount: *amount,
                memo: match memo {
                    Some(m) => Some(m@),
                    None => None,
                },
            },
        }
    }
}

/// A transaction record: immutable once appended, addressed by its zero-based
/// position in the log. It carries the operation, the host-supplied creation
/// time, the identity of the caller that triggered it, and an optional memo.
#[derive(Debug, PartialEq, Eq)]
pub struct Transaction {
    pub operation: Operation,
    pub created_at_time: u64,
    pub caller: Vec<u8>,
    pub memo: Option<Memo>,
}

/// Mathematical model of a transaction record.
#[verifier::ext_equal]
pub struct TransactionV {
    pub operation: OperationV,
    pub created_at_time: u64,
    pub caller: Seq<u8>,
    pub memo: Option<Seq<u8>>,
}

impl View for Transaction {
    type V = TransactionV;

    open spec fn view(&self) -> TransactionV {
        TransactionV {
            operation: self.operation@,
            created_at_time: self.created_at_time,
            caller: self.caller@,
            memo: match &self.memo {
                Some(m) => Some(m@),
                None => None,
            },
        }
    }
}

/// An append-only, strictly ordered sequence of transaction records. Records
/// are created once, in order, and never mutated or removed.
pub struct TransactionLog {
    entries: Vec<Transaction>,
}

impl View for TransactionLog {
    type V = Seq<TransactionV>;

    closed spec fn view(&self) -> Seq<TransactionV> {
        self.entries@.map_values(|t: Transaction| t@)
    }
}

impl TransactionLog {
    /// An empty log.
    pub fn new() -> (r: TransactionLog)
        ensures
            r@ =~= Seq::<TransactionV>::empty(),
    {
        let r = TransactionLog { entries: Vec::new() };
        proof {
            assert(r@ =~= Seq::<TransactionV>::empty());
        }
        r
    }

    /// The number of records appended so far.
    pub fn len(&self) -> (r: usize)
        ensures
            r == self@.len(),
    {
        self.entries.len()
    }

    /// Append one record; it lands at the end and everything before it stays
    /// exactly as it was.
    pub fn append(&mut self, t: Transaction)
        ensures
            final(self)@ == old(self)@.push(t@),
    {
        let ghost s0 = self@;
        let ghost tv = t@;
        self.entries.push(t);
        proof {
            assert(self@ =~= s0.push(tv));
        }
    }

    /// The record at position `i`.
    pub fn get(&self, i: usize) -> (r: &Transaction)
        requires
            i < self@.len(),
        ensures
            r@ == self@[i as int],
    {
        &self.entries[i]
    }
}

} // verus!
