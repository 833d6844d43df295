use vstd::prelude::*;

use std::collections::HashMap;

use crate::address::{contains_address, AccountAddress, Address, Amount};
use crate::proposal::{fresh_proposal, Error, ProposalView, TransactionProposal};

verus! {

broadcast use vstd::std_specs::hash::group_hash_axioms;

/// The mathematical value of the contract's state.
pub struct StateView {
    pub proposals: Map<u32, ProposalView>,
    pub administrators: Seq<Address>,
}

/// What the ledger is asked to pay once a transfer has passed its checks.
#[derive(Clone, Copy, Debug)]
pub struct TransferOrder {
    pub recipient: AccountAddress,
    pub amount: Amount,
}

impl StateView {
    /// The number of votes a proposal needs: one from every administrator.
    pub open spec fn quorum(self) -> nat {
        self.administrators.len()
    }

    /// A roster the contract can run with.
    pub open spec fn valid_roster(administrators: Seq<Address>) -> bool {
        &&& 0 < administrators.len() <= 255
        &&& administrators.no_duplicates()
    }

    /// The roster is valid, each proposal is stored under its own key, counts its votes
    /// exactly, and was voted on by administrators only.
    pub open spec fn wf(self) -> bool {
        &&& StateView::valid_roster(self.administrators)
        &&& forall|k: u32| #[trigger]
            self.proposals.contains_key(k) ==> self.proposals[k].index == k
                && self.proposals[k].wf()
        &&& forall|k: u32, i: int|
            self.proposals.contains_key(k) && 0 <= i < self.proposals[k].voters.len()
                ==> self.administrators.contains(#[trigger] self.proposals[k].voters[i])
    }

    /// The state with `p` stored under `k`.
    pub open spec fn with_proposal(self, k: u32, p: ProposalView) -> StateView {
        StateView { proposals: self.proposals.insert(k, p), ..self }
    }

    /// Registers a fresh proposal under `index`, unless the key is taken.
    pub open spec fn create(
        self,
        sender: Address,
        index: u32,
        receiver: AccountAddress,
        amount: Amount,
    ) -> (StateView, Result<u32, Error>) {
        if self.proposals.contains_key(index) {
            (self, Err(Error::DuplicateKey))
        } else {
            (self.with_proposal(index, fresh_proposal(index, amount, receiver, sender)), Ok(index))
        }
    }

    /// Records the vote of `sender` on the proposal under `index`; the result tells whether
    /// every administrator has now approved.
    pub open spec fn approve(self, sender: Address, index: u32) -> (StateView, Result<
        bool,
        Error,
    >) {
        if !self.administrators.contains(sender) {
            (self, Err(Error::Unauthorized))
        } else if !self.proposals.contains_key(index) {
            (self, Err(Error::UnknownProposal))
        } else if self.proposals[index].voters.contains(sender) {
            (self, Err(Error::AlreadyVoted))
        } else {
            let p = self.proposals[index].with_vote(sender);
            (self.with_proposal(index, p), Ok(p.has_quorum(self.quorum())))
        }
    }

    /// Checks the proposal under `index` against the quorum, its flag and `balance`, in that order,, and on
    /// success marks it fulfilled and gives the payment to make.
    pub open spec fn transfer(self, index: u32, balance: Amount) -> (StateView, Result<
        TransferOrder,
        Error,
    >) {
        if !self.proposals.contains_key(index) {
            (self, Err(Error::UnknownProposal))
        } else {
            let p = self.proposals[index];
            if !p.has_quorum(self.quorum()) {
                (self, Err(Error::NotApproved))
            } else if p.fulfilled {
                (self, Err(Error::AlreadyFulfilled))
            } else if balance.micro_ccd < p.amount.micro_ccd {
                (self, Err(Error::InsufficientFunds))
            } else {
                (
                    self.with_proposal(index, p.with_fulfilled(true)),
                    Ok(TransferOrder { recipient: p.recipient, amount: p.amount }),
                )
            }
        }
    }

    /// Clears the fulfilment mark of the proposal under `index` after the ledger refused
    /// its payment.
    pub open spec fn revert_transfer(self, index: u32) -> (StateView, Result<(), Error>) {
        if !self.proposals.contains_key(index) {
            (self, Err(Error::UnknownProposal))
        } else {
            (self.with_proposal(index, self.proposals[index].with_fulfilled(false)), Ok(()))
        }
    }
}

/// The contract's state: the proposals by key, and the fixed roster of administrators.
pub struct MultiSigContractState {
    pub pending_transactions: HashMap<u32, TransactionProposal>,
    pub administrators: Vec<Address>,
}

impl View for MultiSigContractState {
    type V = StateView;

    open spec fn view(&self) -> StateView {
        StateView {
            proposals: self.pending_transactions@.map_values(|p: TransactionProposal| p@),
            administrators: self.administrators@,
        }
    }
}

/// A roster holds at least as many members as any duplicate-free list of its members.
pub proof fn lemma_voters_within_roster(voters: Seq<Address>, administrators: Seq<Address>)
    requires
        voters.no_duplicates(),
        administrators.no_duplicates(),
        forall|i: int| 0 <= i < voters.len() ==> administrators.contains(#[trigger] voters[i]),
    ensures
        voters.len() <= administrators.len(),
{
    assert(voters.to_set().subset_of(administrators.to_set())) by {
        assert forall|a: Address| voters.to_set().contains(a) implies administrators.to_set().contains(
            a,
        ) by {
            let i = choose|i: int| 0 <= i < voters.len() && voters[i] == a;
            assert(administrators.contains(voters[i]));
        }
    }
    voters.unique_seq_to_set();
    administrators.unique_seq_to_set();
    vstd::set_lib::lemma_len_subset(voters.to_set(), administrators.to_set());
}

/// An administrator who has not voted yet leaves room for one more vote under the roster's size.
pub proof fn lemma_room_for_vote(voters: Seq<Address>, administrators: Seq<Address>, sender: Address)
    requires
        voters.no_duplicates(),
        administrators.no_duplicates(),
        forall|i: int| 0 <= i < voters.len() ==> administrators.contains(#[trigger] voters[i]),
        administrators.contains(sender),
        !voters.contains(sender),
    ensures
        voters.len() < administrators.len(),
        voters.push(sender).no_duplicates(),
{
    let all = voters.push(sender);
    assert(all.no_duplicates()) by {
        assert forall|i: int, j: int| 0 <= i < all.len() && 0 <= j < all.len() && i != j implies all[i]
            != all[j] by {
            if i < voters.len() && j < voters.len() {
            } else if i < voters.len() {
                assert(voters.contains(all[i]));
            } else {
                assert(voters.contains(all[j]));
            }
        }
    }
    assert forall|i: int| 0 <= i < all.len() implies administrators.contains(#[trigger] all[i]) by {
        if i < voters.len() {
            assert(all[i] == voters[i]);
        }
    }
    lemma_voters_within_roster(all, administrators);
}

impl MultiSigContractState {
    /// A state with no proposals and the given administrators.
    pub fn new(administrators: Vec<Address>) -> (s: Self)
        requires
            StateView::valid_roster(administrators@),
        ensures
            s@.proposals == Map::<u32, ProposalView>::empty(),
            s@.administrators == administrators@,
            s@.wf(),
    {
        let s = MultiSigContractState { pending_transactions: HashMap::new(), administrators };
        assert(s@.proposals =~= Map::<u32, ProposalView>::empty());
        s
    }

    /// The number of administrators, which is the number of votes a proposal needs.
    pub fn num_voters(&self) -> (r: usize)
        ensures
            r == self@.quorum(),
    {
        self.administrators.len()
    }

    /// Whether `sender` is one of the administrators.
    pub fn is_administrator(&self, sender: &Address) -> (r: bool)
        ensures
            r == self@.administrators.contains(*sender),
    {
        contains_address(&self.administrators, sender)
    }
}

/// Roster queries for values that live beside a contract state.
pub trait IsAdministrator {
    /// Whether `sender` is one of the administrators of `state`.
    fn is_administrator(&self, state: &MultiSigContractState, sender: &Address) -> (r: bool)
        ensures
            r == state@.administrators.contains(*sender),
    {
        state.is_administrator(sender)
    }

    /// The number of administrators of `state`.
    fn num_voters(&self, state: &MultiSigContractState) -> (r: usize)
        ensures
            r == state@.quorum(),
    {
        state.num_voters()
    }
}

impl IsAdministrator for TransactionProposal {}

} // verus!
