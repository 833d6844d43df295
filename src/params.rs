use vstd::prelude::*;

use crate::address::{AccountAddress, Address, Amount};

verus! {

/// What the contract is created with: the administrators.
#[derive(Debug)]
pub struct InitializationParams {
    pub administrators: Vec<Address>,
}

/// What a new proposal is created with.
#[derive(Clone, Copy, Debug)]
pub struct TransactionParams {
    pub index: u32,
    pub receiver: AccountAddress,
    pub amount: Amount,
}

impl TransactionParams {
    /// Key zero, the all-zero account, no CCD.
    pub fn default() -> (r: Self)
        ensures
            r.index == 0,
            r.receiver.0@ == Seq::new(32, |i: int| 0u8),
            r.amount.micro_ccd == 0,
    {
        let r = TransactionParams {
            index: 0,
            receiver: AccountAddress([0u8; 32]),
            amount: Amount { micro_ccd: 0 },
        };
        proof {
            broadcast use vstd::array::group_array_axioms;
            assert(r.receiver.0@ =~= Seq::new(32, |i: int| 0u8));
        }
        r
    }

    pub fn new(index: u32, receiver: AccountAddress, amount: u64) -> (r: Self)
        ensures
            r.index == index,
            r.receiver == receiver,
            r.amount.micro_ccd == amount,
    {
        TransactionParams { index, receiver, amount: Amount { micro_ccd: amount } }
    }
}

/// Names a proposal by its key.
#[derive(Clone, Copy, Debug, PartialEq, Eq, Structural)]
pub struct ApprovalParams {
    pub index: u32,
}

impl ApprovalParams {
    pub fn new(index: u32) -> (r: Self)
        ensures
            r.index == index,
    {
        ApprovalParams { index }
    }
}

} // verus!
