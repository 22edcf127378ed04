use vstd::prelude::*;

verus! {

/// An account addresses one balance: an opaque owner identity (the byte form
/// of a principal) together with a sub-account discriminator (32 bytes, all
/// zero by default). Two accounts are equal exactly when both components are
/// equal, byte for byte.
#[derive(Debug, PartialEq, Eq)]
pub struct Account {
    pub owner: Vec<u8>,
    pub subaccount: Vec<u8>,
}

/// Mathematical model of an account: both components as byte sequences.
#[verifier::ext_equal]
pub struct AccountV {
    pub owner: Seq<u8>,
    pub subaccount: Seq<u8>,
}

impl View for Account {
    type V = AccountV;

    open spec fn view(&self) -> AccountV {
        AccountV { owner: self.owner@, subaccount: self.subaccount@ }
    }
}

/// The default sub-account: 32 zero bytes.
pub open spec fn default_subaccount_v() -> Seq<u8> {
    Seq::new(32, |i: int| 0u8)
}

/// The distinguished account that collects every transfer fee: the anonymous
/// principal (the single byte 0x04) under the default sub-account.
pub open spec fn fee_collector_v() -> AccountV {
    AccountV { owner: seq![4u8], subaccount: default_subaccount_v() }
}

/// Byte-for-byte equality of two byte vectors.
pub fn bytes_eq(x: &Vec<u8>, y: &Vec<u8>) -> (r: bool)
    ensures
        r == (x@ == y@),
{
    if x.len() != y.len() {
        proof {
            assert(x@ != y@) by {
                if x@ == y@ {
                    assert(x@.len() == y@.len());
                }
            }
        }
        return false;
    }
    let mut i: usize = 0;
    while i < x.len()
        invariant
            i <= x.len(),
            x@.len() == y@.len(),
            forall|j: int| 0 <= j < i ==> x@[j] == y@[j],
        decreases x.len() - i,
    {
        if x[i] != y[i] {
            proof {
                assert(x@ != y@) by {
                    if x@ == y@ {
                        assert(x@[i as int] == y@[i as int]);
                    }
                }
            }
            return false;
        }
        i += 1;
    }
    proof {
        assert(x@ =~= y@);
    }
    true
}

/// A fresh copy of a byte vector.
pub fn bytes_copy(x: &Vec<u8>) -> (r: Vec<u8>)
    ensures
        r@ == x@,
{
    let mut r: Vec<u8> = Vec::new();
    let mut i: usize = 0;
    while i < x.len()
        invariant
            i <= x.len(),
            r@.len() == i,
            forall|j: int| 0 <= j < i ==> r@[j] == x@[j],
        decreases x.len() - i,
    {
        r.push(x[i]);
        i += 1;
    }
    proof {
        assert(r@ =~= x@);
    }
    r
}

impl Account {
    /// Byte-wise equality of owner and sub-account.
    pub fn same_account(&self, other: &Account) -> (r: bool)
        ensures
            r == (self@ == other@),
    {
        let r = bytes_eq(&self.owner, &other.owner) && bytes_eq(&self.subaccount, &other.subaccount);
        proof {
            if self.owner@ == other.owner@ && self.subaccount@ == other.subaccount@ {
                assert(self@ =~= other@);
            }
        }
        r
    }

    /// A fresh copy of this account.
    pub fn duplicate(&self) -> (r: Account)
        ensures
            r@ == self@,
    {
        let r = Account { owner: bytes_copy(&self.owner), subaccount: bytes_copy(&self.subaccount) };
        proof {
            assert(r@ =~= self@);
        }
        r
    }

    /// The default sub-account discriminator: 32 zero bytes.
    pub fn default_subaccount() -> (r: Vec<u8>)
        ensures
            r@ == default_subaccount_v(),
    {
        let mut r: Vec<u8> = Vec::new();
        let mut i: usize = 0;
        while i < 32
            invariant
                i <= 32,
                r@.len() == i,
                forall|j: int| 0 <= j < i ==> r@[j] == 0u8,
            decreases 32 - i,
        {
            r.push(0u8);
            i += 1;
        }
        proof {
            assert(r@ =~= default_subaccount_v());
        }
        r
    }

    /// The fee-collector account.
    pub fn fee_collector() -> (r: Account)
        ensures
            r@ == fee_collector_v(),
    {
        let mut owner: Vec<u8> = Vec::new();
        owner.push(4u8);
        let r = Account { owner, subaccount: Account::default_subaccount() };
        proof {
            assert(r.owner@ =~= seq![4u8]);
            assert(r@ =~= fee_collector_v());
        }
        r
    }
}

} // verus!
