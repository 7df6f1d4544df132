//! Validator registry with locked collateral and authority-controlled
//! reputation scores, plus a small proposal record.

mod lemmas;
mod proposals;
mod pubkey;
mod staking;

pub use proposals::{create_proposal, CreateProposal, Proposal, ProposalError, ProposalState};
pub use pubkey::{authorize, Pubkey};
pub use staking::{
    fresh_validator, initialize_registry, register_validator, registered, registration_check,
    registration_post, registration_result, registration_transfer, reputation_check,
    reputation_post, reputation_result, update_reputation, ErrorCode, EscrowTransfer,
    InitializeRegistry, RegisterValidator, UpdateReputation, ValidatorRegistry, ValidatorState,
    MINIMUM_STAKE_NST, REPUTATION_MULTIPLIER,
};
pub use lemmas::{
    lemma_insufficient_stake_rejected, lemma_records_stay_well_formed, lemma_register_twice,
    lemma_registration_success, lemma_score_boundaries, lemma_score_out_of_range,
    lemma_unauthorized_update, lemma_update_idempotent,
};
