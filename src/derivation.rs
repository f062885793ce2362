//! Accounts and the derivation paths of their keys.
use vstd::prelude::*;

verus! {

/// The version of the derivation-path layout; an incompatible change of the
/// layout must change it.
pub const SCHEMA_V1: u8 = 1;

/// A wallet account: the owner's principal bytes and an optional 32-byte
/// subaccount.
#[derive(Clone, Debug)]
pub struct Account {
    pub owner: Vec<u8>,
    pub subaccount: Option<[u8; 32]>,
}

/// The subaccount of `a`, all zeros when none is given.
pub open spec fn effective_subaccount_of(a: Account) -> Seq<u8> {
    match a.subaccount {
        Some(s) => s@,
        None => Seq::new(32, |i: int| 0u8),
    }
}

/// Accounts are the same when owner and effective subaccount agree.
pub open spec fn same_account(a: Account, b: Account) -> bool {
    a.owner@ == b.owner@ && effective_subaccount_of(a) == effective_subaccount_of(b)
}

/// `[schema version, owner, effective subaccount]`.
pub open spec fn derivation_path_of(a: Account) -> Seq<Seq<u8>> {
    seq![seq![SCHEMA_V1], a.owner@, effective_subaccount_of(a)]
}

impl Account {
    /// The subaccount, all zeros when none is given.
    pub fn effective_subaccount(&self) -> (r: Vec<u8>)
        ensures
            r@ == effective_subaccount_of(*self),
    {
        let mut r: Vec<u8> = Vec::new();
        let mut i: usize = 0;
        while i < 32
            invariant
                i <= 32,
                r@ == effective_subaccount_of(*self).subrange(0, i as int),
            decreases 32 - i,
        {
            let b: u8 = match &self.subaccount {
                Some(s) => s[i],
                None => 0,
            };
            r.push(b);
            i = i + 1;
            assert(r@ =~= effective_subaccount_of(*self).subrange(0, i as int));
        }
        assert(r@ =~= effective_subaccount_of(*self));
        r
    }
}

/// The derivation path of the keys of `account`.
pub fn derivation_path(account: &Account) -> (r: Vec<Vec<u8>>)
    ensures
        r@.map_values(|p: Vec<u8>| p@) == derivation_path_of(*account),
{
    let owner = account.owner.clone();
    assert(owner@ =~= account.owner@);
    let version = vec![SCHEMA_V1];
    assert(version@ =~= seq![SCHEMA_V1]);
    let sub = account.effective_subaccount();
    let r = vec![version, owner, sub];
    assert(r@.map_values(|p: Vec<u8>| p@)[0] == seq![SCHEMA_V1]);
    assert(r@.map_values(|p: Vec<u8>| p@) =~= derivation_path_of(*account));
    r
}

/// Distinct accounts have distinct derivation paths, and an account always
/// has the same one.
pub proof fn lemma_derivation_path_injective(a: Account, b: Account)
    ensures
        !same_account(a, b) ==> derivation_path_of(a) != derivation_path_of(b),
        same_account(a, b) ==> derivation_path_of(a) == derivation_path_of(b),
{
    if derivation_path_of(a) == derivation_path_of(b) {
        assert(derivation_path_of(a)[1] == a.owner@);
        assert(derivation_path_of(b)[1] == b.owner@);
        assert(derivation_path_of(a)[2] == effective_subaccount_of(a));
        assert(derivation_path_of(b)[2] == effective_subaccount_of(b));
    }
}

} // verus!
