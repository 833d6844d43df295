pub mod address;
pub mod contract;
pub mod laws;
pub mod params;
pub mod proposal;
pub mod state;

pub use address::{AccountAddress, Address, Amount, ContractAddress};
pub use contract::{
    approve, create_transaction, distinct_addresses, get_administrators, get_approvals_remaining,
    initialize, revert_transfer, transfer, view,
};
pub use params::{ApprovalParams, InitializationParams, TransactionParams};
pub use proposal::{Error, ProposalView, TransactionProposal};
pub use state::{IsAdministrator, MultiSigContractState, StateView, TransferOrder};
