use vstd::prelude::*;

use crate::address::{AccountAddress, Address, Amount};
use crate::proposal::Error;
use crate::state::{lemma_room_for_vote, StateView, TransferOrder};

verus! {

/// Every operation keeps the state well formed; in particular each proposal's approval count
/// stays equal to the number of its voters, and no identity is counted twice.
pub proof fn lemma_operations_keep_counts(
    s: StateView,
    sender: Address,
    index: u32,
    receiver: AccountAddress,
    amount: Amount,
    balance: Amount,
)
    requires
        s.wf(),
    ensures
        s.create(sender, index, receiver, amount).0.wf(),
        s.approve(sender, index).0.wf(),
        s.transfer(index, balance).0.wf(),
        s.revert_transfer(index).0.wf(),
        forall|k: u32| #[trigger]
            s.approve(sender, index).0.proposals.contains_key(k) ==> s.approve(
                sender,
                index,
            ).0.proposals[k].approvals == s.approve(sender, index).0.proposals[k].voters.len(),
{
    let t = s.approve(sender, index).0;
    if s.administrators.contains(sender) && s.proposals.contains_key(index)
        && !s.proposals[index].voters.contains(sender) {
        let p = s.proposals[index];
        assert forall|i: int| 0 <= i < p.voters.len() implies s.administrators.contains(
            #[trigger] p.voters[i],
        ) by {}
        lemma_room_for_vote(p.voters, s.administrators, sender);
        assert forall|k: u32, i: int|
            t.proposals.contains_key(k) && 0 <= i < t.proposals[k].voters.len()
                implies t.administrators.contains(#[trigger] t.proposals[k].voters[i]) by {
            if k == index && i < p.voters.len() {
                assert(t.proposals[k].voters[i] == p.voters[i]);
            }
        }
    }
}

/// A second approval by the same identity on the same key is refused with `AlreadyVoted` and
/// changes nothing.
pub proof fn lemma_second_vote_refused(s: StateView, sender: Address, index: u32)
    requires
        s.wf(),
        s.approve(sender, index).1 is Ok,
    ensures
        s.approve(sender, index).0.approve(sender, index) == (
            s.approve(sender, index).0,
            Err::<bool, Error>(Error::AlreadyVoted),
        ),
{
    let t = s.approve(sender, index).0;
    assert(t.proposals[index].voters.last() == sender);
}

/// A transfer succeeds exactly when the proposal exists, every administrator has approved it,
/// it is not yet fulfilled and the balance covers its amount. On success it is marked fulfilled
/// and its recipient and amount are what is paid; on failure nothing changes, its flag included.
pub proof fn lemma_transfer_succeeds_iff(s: StateView, index: u32, balance: Amount)
    ensures
        s.transfer(index, balance).1 is Ok <==> s.proposals.contains_key(index)
            && s.proposals[index].approvals == s.quorum() && !s.proposals[index].fulfilled
            && balance.micro_ccd >= s.proposals[index].amount.micro_ccd,
        s.transfer(index, balance).1 matches Ok(order) ==> order.recipient
            == s.proposals[index].recipient && order.amount == s.proposals[index].amount
            && s.transfer(index, balance).0.proposals == s.proposals.insert(
            index,
            s.proposals[index].with_fulfilled(true),
        ),
        s.transfer(index, balance).1 is Err ==> s.transfer(index, balance).0 == s,
        !s.proposals.contains_key(index) ==> s.transfer(index, balance).1 == Err::<
            TransferOrder,
            Error,
        >(Error::UnknownProposal),
        s.proposals.contains_key(index) && s.proposals[index].approvals != s.quorum()
            ==> s.transfer(index, balance).1 == Err::<TransferOrder, Error>(Error::NotApproved),
        s.proposals.contains_key(index) && s.proposals[index].approvals == s.quorum()
            && s.proposals[index].fulfilled ==> s.transfer(index, balance).1 == Err::<
            TransferOrder,
            Error,
        >(Error::AlreadyFulfilled),
        s.proposals.contains_key(index) && !s.proposals[index].fulfilled
            && s.proposals[index].approvals == s.quorum() && balance.micro_ccd
            < s.proposals[index].amount.micro_ccd ==> s.transfer(index, balance).1 == Err::<
            TransferOrder,
            Error,
        >(Error::InsufficientFunds),
{
}

/// Once a transfer has succeeded on a key, every later transfer on it, whatever the balance, is
/// refused with `AlreadyFulfilled` and changes nothing: a proposal is paid at most once.
pub proof fn lemma_transfer_at_most_once(s: StateView, index: u32, first: Amount, second: Amount)
    requires
        s.transfer(index, first).1 is Ok,
    ensures
        s.transfer(index, first).0.transfer(index, second) == (
            s.transfer(index, first).0,
            Err::<TransferOrder, Error>(Error::AlreadyFulfilled),
        ),
{
}

/// Creating a proposal under a key that is taken is refused with `DuplicateKey` and leaves the
/// stored proposal, and the whole state, as it was.
pub proof fn lemma_duplicate_key_refused(
    s: StateView,
    sender: Address,
    index: u32,
    receiver: AccountAddress,
    amount: Amount,
)
    requires
        s.proposals.contains_key(index),
    ensures
        s.create(sender, index, receiver, amount) == (s, Err::<u32, Error>(Error::DuplicateKey)),
{
}

/// An approval by an identity outside the roster is refused with `Unauthorized`, whatever the
/// proposal's state, and changes nothing.
pub proof fn lemma_outsider_cannot_approve(s: StateView, sender: Address, index: u32)
    requires
        !s.administrators.contains(sender),
    ensures
        s.approve(sender, index) == (s, Err::<bool, Error>(Error::Unauthorized)),
{
}

} // verus!
