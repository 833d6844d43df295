use vstd::prelude::*;

use crate::address::{copy_addresses, Address, Amount};
use crate::laws::lemma_operations_keep_counts;
use crate::params::{ApprovalParams, InitializationParams, TransactionParams};
use crate::proposal::{Error, ProposalView, TransactionProposal};
use crate::state::{
    lemma_room_for_vote,
    lemma_voters_within_roster,
    MultiSigContractState,
    StateView,
    TransferOrder,
};

verus! {

broadcast use vstd::std_specs::hash::group_hash_axioms;

/// Whether no identity occurs twice in `v`.
pub fn distinct_addresses(v: &Vec<Address>) -> (r: bool)
    ensures
        r == v@.no_duplicates(),
{
    let mut i: usize = 0;
    while i < v.len()
        invariant
            i <= v@.len(),
            forall|a: int, b: int| 0 <= a < b < i ==> v@[a] != v@[b],
        decreases v@.len() - i,
    {
        let mut j: usize = 0;
        while j < i
            invariant
                i < v@.len(),
                j <= i,
                forall|a: int| 0 <= a < j ==> v@[a] != v@[i as int],
            decreases i - j,
        {
            if v[j].same_as(&v[i]) {
                return false;
            }
            j = j + 1;
        }
        i = i + 1;
    }
    true
}

/// Creates the contract's state from its roster, which must be non-empty, free of repeats and
/// at most 255 long.
pub fn initialize(params: InitializationParams) -> (r: Result<MultiSigContractState, Error>)
    ensures
        StateView::valid_roster(params.administrators@) ==> r is Ok && r->Ok_0@.administrators
            == params.administrators@ && r->Ok_0@.proposals == Map::<u32, ProposalView>::empty()
            && r->Ok_0@.wf(),
        !StateView::valid_roster(params.administrators@) ==> r is Err && r->Err_0
            == Error::InvalidAdministrators,
{
    let administrators = params.administrators;
    if administrators.len() == 0 || administrators.len() > 255 || !distinct_addresses(
        &administrators,
    ) {
        return Err(Error::InvalidAdministrators);
    }
    Ok(MultiSigContractState::new(administrators))
}

/// Registers a new proposal under the key of `param`, proposed by `sender`.
pub fn create_transaction(
    state: &mut MultiSigContractState,
    sender: Address,
    param: TransactionParams,
) -> (r: Result<u32, Error>)
    requires
        old(state)@.wf(),
    ensures
        (final(state)@, r) == old(state)@.create(sender, param.index, param.receiver, param.amount),
        final(state)@.wf(),
{
    proof {
        lemma_operations_keep_counts(
            state@,
            sender,
            param.index,
            param.receiver,
            param.amount,
            param.amount,
        );
    }
    if state.pending_transactions.contains_key(&param.index) {
        Err(Error::DuplicateKey)
    } else {
        let proposal = TransactionProposal::new(param.index, param.amount, param.receiver, sender);
        let ghost before = state@;
        state.pending_transactions.insert(param.index, proposal);
        assert(state@.proposals =~= before.proposals.insert(param.index, proposal@));
        Ok(param.index)
    }
}

/// Records the approval of `sender` on the proposal named by `param`; the result tells whether
/// every administrator has now approved it.
pub fn approve(state: &mut MultiSigContractState, sender: Address, param: ApprovalParams) -> (r:
    Result<bool, Error>)
    requires
        old(state)@.wf(),
    ensures
        (final(state)@, r) == old(state)@.approve(sender, param.index),
        final(state)@.wf(),
{
    let index = param.index;
    proof {
        lemma_operations_keep_counts(
            state@,
            sender,
            index,
            arbitrary(),
            arbitrary(),
            arbitrary(),
        );
    }
    if !state.is_administrator(&sender) {
        return Err(Error::Unauthorized);
    }
    let required_approvals = state.num_voters();
    let ghost before = state@;
    match state.pending_transactions.remove(&index) {
        None => {
            assert(state@.proposals =~= before.proposals);
            Err(Error::UnknownProposal)
        },
        Some(mut proposal) => {
            proof {
                let p = before.proposals[index];
                assert(proposal@ == p);
                assert forall|i: int| 0 <= i < p.voters.len() implies before.administrators.contains(
                    #[trigger] p.voters[i],
                ) by {}
                if !p.voters.contains(sender) {
                    lemma_room_for_vote(p.voters, before.administrators, sender);
                }
            }
            let r = proposal.approve(sender, required_approvals);
            state.pending_transactions.insert(index, proposal);
            assert(state@.proposals =~= before.proposals.insert(index, proposal@));
            proof {
                if r is Err {
                    assert(state@.proposals =~= before.proposals);
                }
            }
            r
        },
    }
}

/// Checks the proposal named by `param` for execution against the ledger's `balance`. When every
/// administrator has approved it, it is not yet fulfilled and the balance covers its amount, it is
/// marked fulfilled and the payment to make is returned; the mark is set before any payment.
pub fn transfer(state: &mut MultiSigContractState, param: ApprovalParams, balance: Amount) -> (r:
    Result<TransferOrder, Error>)
    requires
        old(state)@.wf(),
    ensures
        (final(state)@, r) == old(state)@.transfer(param.index, balance),
        final(state)@.wf(),
{
    let index = param.index;
    proof {
        lemma_operations_keep_counts(
            state@,
            arbitrary(),
            index,
            arbitrary(),
            arbitrary(),
            balance,
        );
    }
    let required_approvals = state.num_voters();
    let ghost before = state@;
    match state.pending_transactions.remove(&index) {
        None => {
            assert(state@.proposals =~= before.proposals);
            Err(Error::UnknownProposal)
        },
        Some(mut proposal) => {
            assert(proposal@ == before.proposals[index]);
            let approved = match proposal.is_approved(required_approvals) {
                Ok(b) => b,
                Err(_) => false,
            };
            let r = if !approved {
                Err(Error::NotApproved)
            } else if proposal.fulfilled {
                Err(Error::AlreadyFulfilled)
            } else if balance.micro_ccd < proposal.amount.micro_ccd {
                Err(Error::InsufficientFunds)
            } else {
                proposal.fulfilled = true;
                Ok(TransferOrder { recipient: proposal.recipient, amount: proposal.amount })
            };
            state.pending_transactions.insert(index, proposal);
            assert(state@.proposals =~= before.proposals.insert(index, proposal@));
            proof {
                if r is Err {
                    assert(state@.proposals =~= before.proposals);
                }
            }
            r
        },
    }
}

/// Clears the fulfilment mark of the proposal named by `param`, after the ledger refused the
/// payment that `transfer` ordered.
pub fn revert_transfer(state: &mut MultiSigContractState, param: ApprovalParams) -> (r: Result<
    (),
    Error,
>)
    requires
        old(state)@.wf(),
    ensures
        (final(state)@, r) == old(state)@.revert_transfer(param.index),
        final(state)@.wf(),
{
    let index = param.index;
    proof {
        lemma_operations_keep_counts(
            state@,
            arbitrary(),
            index,
            arbitrary(),
            arbitrary(),
            arbitrary(),
        );
    }
    let ghost before = state@;
    match state.pending_transactions.remove(&index) {
        None => {
            assert(state@.proposals =~= before.proposals);
            Err(Error::UnknownProposal)
        },
        Some(mut proposal) => {
            proposal.fulfilled = false;
            state.pending_transactions.insert(index, proposal);
            assert(state@.proposals =~= before.proposals.insert(index, proposal@));
            Ok(())
        },
    }
}

/// A copy of the proposal named by `param`.
pub fn view(state: &MultiSigContractState, param: ApprovalParams) -> (r: Result<
    TransactionProposal,
    Error,
>)
    ensures
        state@.proposals.contains_key(param.index) ==> r is Ok && r->Ok_0@
            == state@.proposals[param.index],
        !state@.proposals.contains_key(param.index) ==> r is Err && r->Err_0
            == Error::UnknownProposal,
{
    match state.pending_transactions.get(&param.index) {
        None => Err(Error::UnknownProposal),
        Some(proposal) => Ok(proposal.snapshot()),
    }
}

/// A copy of the roster.
pub fn get_administrators(state: &MultiSigContractState) -> (r: Vec<Address>)
    ensures
        r@ == state@.administrators,
{
    copy_addresses(&state.administrators)
}

/// How many administrators have yet to approve the proposal named by `param`.
pub fn get_approvals_remaining(state: &MultiSigContractState, param: ApprovalParams) -> (r: Result<
    u8,
    Error,
>)
    requires
        state@.wf(),
    ensures
        state@.proposals.contains_key(param.index) ==> r is Ok && r->Ok_0 == state@.quorum()
            - state@.proposals[param.index].approvals,
        !state@.proposals.contains_key(param.index) ==> r is Err && r->Err_0
            == Error::UnknownProposal,
{
    match state.pending_transactions.get(&param.index) {
        None => Err(Error::UnknownProposal),
        Some(proposal) => {
            proof {
                let p = state@.proposals[param.index];
                assert(state@.proposals.contains_key(param.index));
                assert forall|i: int| 0 <= i < p.voters.len() implies state@.administrators.contains(
                    #[trigger] p.voters[i],
                ) by {}
                lemma_voters_within_roster(p.voters, state@.administrators);
            }
            Ok(state.administrators.len() as u8 - proposal.approvals)
        },
    }
}

} // verus!
