use ccd_multisig::address::{contains_address, copy_addresses};
use ccd_multisig::{
    approve, create_transaction, distinct_addresses, get_administrators, get_approvals_remaining,
    initialize, revert_transfer, transfer, view, AccountAddress, Address, Amount, ApprovalParams,
    ContractAddress, Error, InitializationParams, IsAdministrator, MultiSigContractState,
    TransactionParams, TransactionProposal,
};

fn account(b: u8) -> Address {
    Address::Account(AccountAddress([b; 32]))
}

fn recipient() -> AccountAddress {
    AccountAddress([9u8; 32])
}

fn ccd(micro_ccd: u64) -> Amount {
    Amount { micro_ccd }
}

fn three_admins() -> MultiSigContractState {
    initialize(InitializationParams { administrators: vec![account(1), account(2), account(3)] })
        .unwrap()
}

fn create(state: &mut MultiSigContractState, index: u32, amount: u64) -> Result<u32, Error> {
    create_transaction(state, account(7), TransactionParams::new(index, recipient(), amount))
}

fn assert_counts(state: &MultiSigContractState) {
    for p in state.pending_transactions.values() {
        assert_eq!(p.approvals as usize, p.voters.len());
    }
}

#[test]
fn unanimous_approval_then_single_execution() {
    let mut state = three_admins();
    let (a, b, c) = (account(1), account(2), account(3));
    assert_eq!(create(&mut state, 1, 100), Ok(1));
    let p = view(&state, ApprovalParams::new(1)).unwrap();
    assert_eq!(p.approvals, 0);
    assert!(!p.fulfilled);
    assert_eq!(approve(&mut state, a, ApprovalParams::new(1)), Ok(false));
    assert_eq!(view(&state, ApprovalParams::new(1)).unwrap().approvals, 1);
    assert_eq!(approve(&mut state, a, ApprovalParams::new(1)), Err(Error::AlreadyVoted));
    assert_eq!(approve(&mut state, b, ApprovalParams::new(1)), Ok(false));
    assert_eq!(view(&state, ApprovalParams::new(1)).unwrap().approvals, 2);
    assert_eq!(approve(&mut state, c, ApprovalParams::new(1)), Ok(true));
    assert_eq!(view(&state, ApprovalParams::new(1)).unwrap().approvals, 3);
    assert_counts(&state);
    let order = transfer(&mut state, ApprovalParams::new(1), ccd(150)).unwrap();
    assert_eq!(order.amount, ccd(100));
    assert_eq!(order.recipient, recipient());
    assert!(view(&state, ApprovalParams::new(1)).unwrap().fulfilled);
    assert_eq!(
        transfer(&mut state, ApprovalParams::new(1), ccd(150)).unwrap_err(),
        Error::AlreadyFulfilled
    );
}

#[test]
fn insufficient_funds_then_retry() {
    let mut state = three_admins();
    create(&mut state, 4, 100).unwrap();
    for i in 1..=3u8 {
        approve(&mut state, account(i), ApprovalParams::new(4)).unwrap();
    }
    assert_eq!(
        transfer(&mut state, ApprovalParams::new(4), ccd(50)).unwrap_err(),
        Error::InsufficientFunds
    );
    assert!(!view(&state, ApprovalParams::new(4)).unwrap().fulfilled);
    let order = transfer(&mut state, ApprovalParams::new(4), ccd(100)).unwrap();
    assert_eq!(order.amount, ccd(100));
    assert_eq!(
        transfer(&mut state, ApprovalParams::new(4), ccd(100)).unwrap_err(),
        Error::AlreadyFulfilled
    );
}

#[test]
fn outsider_cannot_approve() {
    let mut state = three_admins();
    create(&mut state, 2, 10).unwrap();
    assert_eq!(approve(&mut state, account(8), ApprovalParams::new(2)), Err(Error::Unauthorized));
    assert_eq!(approve(&mut state, account(8), ApprovalParams::new(5)), Err(Error::Unauthorized));
    let contract = Address::Contract(ContractAddress { index: 1, subindex: 0 });
    assert_eq!(approve(&mut state, contract, ApprovalParams::new(2)), Err(Error::Unauthorized));
    let p = view(&state, ApprovalParams::new(2)).unwrap();
    assert_eq!(p.approvals, 0);
    assert!(p.voters.is_empty());
}

#[test]
fn duplicate_key_keeps_existing_proposal() {
    let mut state = three_admins();
    create(&mut state, 3, 10).unwrap();
    approve(&mut state, account(1), ApprovalParams::new(3)).unwrap();
    assert_eq!(create(&mut state, 3, 999), Err(Error::DuplicateKey));
    let p = view(&state, ApprovalParams::new(3)).unwrap();
    assert_eq!(p.amount, ccd(10));
    assert_eq!(p.approvals, 1);
    assert_eq!(p.voters, vec![account(1)]);
    assert_eq!(p.proposer, account(7));
}

#[test]
fn second_vote_changes_nothing() {
    let mut state = three_admins();
    create(&mut state, 6, 10).unwrap();
    approve(&mut state, account(2), ApprovalParams::new(6)).unwrap();
    assert_eq!(approve(&mut state, account(2), ApprovalParams::new(6)), Err(Error::AlreadyVoted));
    let p = view(&state, ApprovalParams::new(6)).unwrap();
    assert_eq!(p.voters, vec![account(2)]);
    assert_eq!(p.approvals, 1);
    assert_counts(&state);
}

#[test]
fn unknown_proposal_errors() {
    let mut state = three_admins();
    assert_eq!(approve(&mut state, account(1), ApprovalParams::new(9)), Err(Error::UnknownProposal));
    assert_eq!(transfer(&mut state, ApprovalParams::new(9), ccd(5)).unwrap_err(), Error::UnknownProposal);
    assert_eq!(revert_transfer(&mut state, ApprovalParams::new(9)), Err(Error::UnknownProposal));
    assert_eq!(view(&state, ApprovalParams::new(9)).unwrap_err(), Error::UnknownProposal);
    assert_eq!(get_approvals_remaining(&state, ApprovalParams::new(9)), Err(Error::UnknownProposal));
}

#[test]
fn transfer_before_quorum_is_refused() {
    let mut state = three_admins();
    create(&mut state, 1, 10).unwrap();
    approve(&mut state, account(1), ApprovalParams::new(1)).unwrap();
    approve(&mut state, account(2), ApprovalParams::new(1)).unwrap();
    assert_eq!(transfer(&mut state, ApprovalParams::new(1), ccd(1000)).unwrap_err(), Error::NotApproved);
    assert!(!view(&state, ApprovalParams::new(1)).unwrap().fulfilled);
}

#[test]
fn failed_payment_reopens_proposal() {
    let mut state = three_admins();
    create(&mut state, 1, 10).unwrap();
    for i in 1..=3u8 {
        approve(&mut state, account(i), ApprovalParams::new(1)).unwrap();
    }
    transfer(&mut state, ApprovalParams::new(1), ccd(10)).unwrap();
    assert_eq!(revert_transfer(&mut state, ApprovalParams::new(1)), Ok(()));
    assert!(!view(&state, ApprovalParams::new(1)).unwrap().fulfilled);
    assert!(transfer(&mut state, ApprovalParams::new(1), ccd(10)).is_ok());
}

#[test]
fn approvals_remaining_counts_down() {
    let mut state = three_admins();
    create(&mut state, 1, 10).unwrap();
    assert_eq!(get_approvals_remaining(&state, ApprovalParams::new(1)), Ok(3));
    approve(&mut state, account(3), ApprovalParams::new(1)).unwrap();
    assert_eq!(get_approvals_remaining(&state, ApprovalParams::new(1)), Ok(2));
    approve(&mut state, account(1), ApprovalParams::new(1)).unwrap();
    approve(&mut state, account(2), ApprovalParams::new(1)).unwrap();
    assert_eq!(get_approvals_remaining(&state, ApprovalParams::new(1)), Ok(0));
}

#[test]
fn roster_is_checked_at_initialization() {
    let empty = initialize(InitializationParams { administrators: vec![] });
    assert_eq!(empty.err(), Some(Error::InvalidAdministrators));
    let repeated = initialize(InitializationParams {
        administrators: vec![account(1), account(2), account(1)],
    });
    assert_eq!(repeated.err(), Some(Error::InvalidAdministrators));
    let largest: Vec<Address> = (0..=254u8).map(account).collect();
    assert!(initialize(InitializationParams { administrators: largest.clone() }).is_ok());
    let mut too_many = largest;
    too_many.push(Address::Contract(ContractAddress { index: 0, subindex: 0 }));
    assert_eq!(
        initialize(InitializationParams { administrators: too_many }).err(),
        Some(Error::InvalidAdministrators)
    );
}

#[test]
fn roster_queries() {
    let state = three_admins();
    assert_eq!(get_administrators(&state), vec![account(1), account(2), account(3)]);
    assert_eq!(state.num_voters(), 3);
    assert!(state.is_administrator(&account(2)));
    assert!(!state.is_administrator(&account(4)));
    let p = TransactionProposal::new(1, ccd(5), recipient(), account(1));
    assert!(IsAdministrator::is_administrator(&p, &state, &account(3)));
    assert_eq!(IsAdministrator::num_voters(&p, &state), 3);
}

#[test]
fn proposal_votes_directly() {
    let mut p = TransactionProposal::new(5, ccd(20), recipient(), account(1));
    assert_eq!(p.is_approved(2), Ok(false));
    assert_eq!(p.approve(account(1), 2), Ok(false));
    assert_eq!(p.approve(account(1), 2), Err(Error::AlreadyVoted));
    assert_eq!(p.approve(account(2), 2), Ok(true));
    assert_eq!(p.is_approved(2), Ok(true));
    assert_eq!(p.approvals, 2);
    let copy = p.snapshot();
    assert_eq!(copy.voters, vec![account(1), account(2)]);
}

#[test]
fn addresses_compare_by_value() {
    assert_eq!(account(1), account(1));
    assert_ne!(account(1), account(2));
    let mut bytes = [1u8; 32];
    bytes[31] = 2;
    assert_ne!(account(1), Address::Account(AccountAddress(bytes)));
    assert_ne!(
        Address::Contract(ContractAddress { index: 1, subindex: 0 }),
        Address::Contract(ContractAddress { index: 1, subindex: 1 })
    );
    let v = vec![account(1), account(2)];
    assert!(contains_address(&v, &account(2)));
    assert!(!contains_address(&v, &account(3)));
    assert_eq!(copy_addresses(&v), v);
    assert!(distinct_addresses(&v));
    assert!(!distinct_addresses(&vec![account(1), account(1)]));
}

#[test]
fn parameters() {
    let d = TransactionParams::default();
    assert_eq!(d.index, 0);
    assert_eq!(d.receiver, AccountAddress([0u8; 32]));
    assert_eq!(d.amount, ccd(0));
    let t = TransactionParams::new(3, recipient(), 42);
    assert_eq!(t.amount.micro_ccd, 42);
    assert_eq!(ApprovalParams::new(8).index, 8);
}
