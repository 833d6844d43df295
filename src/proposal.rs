use vstd::prelude::*;

use crate::address::{contains_address, copy_addresses, AccountAddress, Address, Amount};

verus! {

/// Why an operation was refused.
#[derive(Clone, Copy, Debug, PartialEq, Eq, Structural)]
pub enum Error {
    /// The parameter could not be decoded.
    MalformedInput,
    /// The roster is empty, repeats an identity, or has more than 255 members.
    InvalidAdministrators,
    /// The caller is not an administrator.
    Unauthorized,
    /// No proposal is stored under the key.
    UnknownProposal,
    /// A proposal is already stored under the key.
    DuplicateKey,
    /// The caller has already approved this proposal.
    AlreadyVoted,
    /// The proposal does not have the approval of every administrator.
    NotApproved,
    /// The proposal has already been paid out.
    AlreadyFulfilled,
    /// The balance is below the amount of the proposal.
    InsufficientFunds,
    /// The ledger refused the transfer.
    TransferFailed,
}

/// The mathematical value of a proposal.
pub struct ProposalView {
    pub index: u32,
    pub amount: Amount,
    pub recipient: AccountAddress,
    pub voters: Seq<Address>,
    pub approvals: nat,
    pub fulfilled: bool,
    pub proposer: Address,
}

impl ProposalView {
    /// Votes are counted once each, and the count matches the voters.
    pub open spec fn wf(self) -> bool {
        &&& self.approvals == self.voters.len()
        &&& self.voters.no_duplicates()
    }

    /// Whether every one of `quorum` administrators has approved.
    pub open spec fn has_quorum(self, quorum: nat) -> bool {
        self.approvals == quorum
    }

    /// The proposal after `voter` has approved it.
    pub open spec fn with_vote(self, voter: Address) -> ProposalView {
        ProposalView { voters: self.voters.push(voter), approvals: self.approvals + 1, ..self }
    }

    /// The proposal with its fulfilment flag set to `fulfilled`.
    pub open spec fn with_fulfilled(self, fulfilled: bool) -> ProposalView {
        ProposalView { fulfilled, ..self }
    }
}

/// A fresh proposal: no votes, not fulfilled.
pub open spec fn fresh_proposal(
    index: u32,
    amount: Amount,
    recipient: AccountAddress,
    proposer: Address,
) -> ProposalView {
    ProposalView {
        index,
        amount,
        recipient,
        voters: Seq::empty(),
        approvals: 0,
        fulfilled: false,
        proposer,
    }
}

/// A pending transfer of `amount` to `recipient`, with the votes it has gathered.
#[derive(Debug)]
pub struct TransactionProposal {
    pub index: u32,
    pub amount: Amount,
    pub recipient: AccountAddress,
    pub voters: Vec<Address>,
    pub approvals: u8,
    pub fulfilled: bool,
    pub proposer: Address,
}

impl View for TransactionProposal {
    type V = ProposalView;

    open spec fn view(&self) -> ProposalView {
        ProposalView {
            index: self.index,
            amount: self.amount,
            recipient: self.recipient,
            voters: self.voters@,
            approvals: self.approvals as nat,
            fulfilled: self.fulfilled,
            proposer: self.proposer,
        }
    }
}

impl TransactionProposal {
    pub fn new(index: u32, amount: Amount, recipient: AccountAddress, proposer: Address) -> (p:
        Self)
        ensures
            p@ == fresh_proposal(index, amount, recipient, proposer),
            p@.wf(),
    {
        TransactionProposal {
            index,
            amount,
            recipient,
            voters: Vec::new(),
            approvals: 0,
            fulfilled: false,
            proposer,
        }
    }

    /// Records the vote of `sender`, and tells whether all `required_approvals` votes are now in.
    pub fn approve(&mut self, sender: Address, required_approvals: usize) -> (r: Result<
        bool,
        Error,
    >)
        requires
            old(self)@.wf(),
            old(self)@.voters.contains(sender) || old(self).approvals < 255,
        ensures
            old(self)@.voters.contains(sender) ==> r == Err::<bool, Error>(Error::AlreadyVoted)
                && final(self)@ == old(self)@,
            !old(self)@.voters.contains(sender) ==> final(self)@ == old(self)@.with_vote(sender)
                && r == Ok::<bool, Error>(final(self)@.has_quorum(required_approvals as nat)),
            final(self)@.wf(),
    {
        if contains_address(&self.voters, &sender) {
            Err(Error::AlreadyVoted)
        } else {
            self.voters.push(sender);
            self.approvals = self.approvals + 1;
            Ok(self.approvals as usize == required_approvals)
        }
    }

    /// Whether all `required_approvals` votes are in.
    pub fn is_approved(&self, required_approvals: usize) -> (r: Result<bool, Error>)
        ensures
            r == Ok::<bool, Error>(self@.has_quorum(required_approvals as nat)),
    {
        Ok(self.approvals as usize == required_approvals)
    }

    /// A copy of the proposal.
    pub fn snapshot(&self) -> (r: Self)
        ensures
            r@ == self@,
    {
        TransactionProposal {
            index: self.index,
            amount: self.amount,
            recipient: self.recipient,
            voters: copy_addresses(&self.voters),
            approvals: self.approvals,
            fulfilled: self.fulfilled,
            proposer: self.proposer,
        }
    }
}

} // verus!
