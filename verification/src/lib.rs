//! Custody of per-owner vaults under a three-tier authorization model.
//!
//! A vault belongs to one owner and is reached at an identity derived from
//! that owner.  Its owner may move what it holds.  So may any operator that
//! the registry lists.  The registry itself answers to one administrator.
//! Every operation decides first who is asking, then recomputes the
//! derivation of each record it was handed, and acts only then.

pub mod accounts;
pub mod derivation;
pub mod error;
pub mod gate;
pub mod identity;
pub mod instructions;
pub mod laws;
pub mod ledger;
pub mod state;
pub mod token;

pub use crate::accounts::{
    ApproveToken, CloseTokenAccount, CloseTokenAccountByOperator, CreateUserPDA, Initialize,
    InitializeGlobalState, RevokeApproval, TransferByOperator, TransferLamports, TransferToken,
    UpdateAdmin, UpdateOperator,
};
pub use crate::derivation::{id, ID, PDA_GLOBAL_STATE_SEED, PDA_VAULT_SEED};
pub use crate::error::CustomError;
pub use crate::state::{GlobalState, UserPdaVaultAccount};
