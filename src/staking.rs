use vstd::prelude::*;

use crate::pubkey::{authorize, Pubkey};

verus! {

/// Collateral that a validator must lock: 5,000 tokens at 9 decimals.
pub const MINIMUM_STAKE_NST: u64 = 5_000_000_000_000;

/// Scale of the reputation score: 10000 stands for a trust of 1.0.
pub const REPUTATION_MULTIPLIER: u64 = 10000;

/// Every way in which an operation on the registry can fail.
#[derive(Clone, Copy, Debug, PartialEq, Eq, Structural)]
pub enum ErrorCode {
    /// The funding account holds less than the minimum stake.
    InsufficientStake,
    /// A proposed reputation score above 10000.
    InvalidReputationScore,
    /// A reputation update signed by someone other than the registry authority.
    UnauthorizedAccess,
    /// The registry exists already.
    AlreadyInitialized,
    /// The identity has a validator record already.
    DuplicateRecord,
    /// The validator count cannot grow any further.
    ArithmeticOverflow,
    /// The ledger refused to move the stake into the pool.
    TransferFailed,
}

/// The singleton registry.
#[derive(Clone, Copy, Debug)]
pub struct ValidatorRegistry {
    /// Number of validators ever registered.
    pub validator_count: u64,
    /// The one identity allowed to change reputation scores, fixed at creation.
    pub authority: Pubkey,
}

/// The record of one validator.
#[derive(Clone, Copy, Debug)]
pub struct ValidatorState {
    pub authority: Pubkey,
    pub stake_amount: u64,
    /// Scaled from 0 to 10000.
    pub reputation_score: u64,
    pub is_active: bool,
}

impl ValidatorState {
    /// The record's invariant: a bounded score, and no active record below
    /// the minimum stake.
    pub open spec fn wf(&self) -> bool {
        &&& self.reputation_score <= REPUTATION_MULTIPLIER
        &&& self.is_active ==> self.stake_amount >= MINIMUM_STAKE_NST
    }
}

/// The record that a fresh registration creates for `authority`.
pub open spec fn fresh_validator(authority: Pubkey) -> ValidatorState {
    ValidatorState {
        authority,
        stake_amount: MINIMUM_STAKE_NST,
        reputation_score: REPUTATION_MULTIPLIER,
        is_active: true,
    }
}

/// The accounts that registry initialisation works on.
#[derive(Clone, Copy, Debug)]
pub struct InitializeRegistry {
    /// The registry account; `None` while it has not been created.
    pub validator_registry: Option<ValidatorRegistry>,
    /// The router / orchestrator identity that will update reputation scores.
    pub registry_authority: Pubkey,
    /// Who pays for the registry account.
    pub signer: Pubkey,
}

/// Creates the registry with a count of zero and `registry_authority` as its
/// authority. A registry that exists already is left as it is.
pub fn initialize_registry(ctx: &mut InitializeRegistry) -> (r: Result<(), ErrorCode>)
    ensures
        old(ctx).validator_registry is Some ==> r == Err::<(), ErrorCode>(
            ErrorCode::AlreadyInitialized,
        ) && *final(ctx) == *old(ctx),
        old(ctx).validator_registry is None ==> r is Ok && *final(ctx) == (InitializeRegistry {
            validator_registry: Some(
                ValidatorRegistry { validator_count: 0, authority: old(ctx).registry_authority },
            ),
            ..*old(ctx)
        }),
{
    if ctx.validator_registry.is_some() {
        return Err(ErrorCode::AlreadyInitialized);
    }
    ctx.validator_registry = Some(
        ValidatorRegistry { validator_count: 0, authority: ctx.registry_authority },
    );
    Ok(())
}

/// The accounts that a registration works on.
#[derive(Clone, Copy, Debug)]
pub struct RegisterValidator {
    /// The record kept for `validator_authority`; `None` while there is none.
    pub validator_state: Option<ValidatorState>,
    pub validator_registry: ValidatorRegistry,
    /// Balance of the validator's funding token account.
    pub user_nst_amount: u64,
    /// The identity that registers, and signs the stake transfer.
    pub validator_authority: Pubkey,
}

/// The escrow transfer that a registration asks the ledger to perform: move
/// `amount` from the funding account of `owner` into the staking pool,
/// authorised by `owner`.
#[derive(Clone, Copy, Debug)]
pub struct EscrowTransfer {
    pub owner: Pubkey,
    pub amount: u64,
}

/// The first failed precondition of a registration, checked in this order:
/// the funding balance, an existing record, room in the validator count.
pub open spec fn registration_check(ctx: RegisterValidator) -> Option<ErrorCode> {
    if ctx.user_nst_amount < MINIMUM_STAKE_NST {
        Some(ErrorCode::InsufficientStake)
    } else if ctx.validator_state is Some {
        Some(ErrorCode::DuplicateRecord)
    } else if ctx.validator_registry.validator_count == u64::MAX {
        Some(ErrorCode::ArithmeticOverflow)
    } else {
        None
    }
}

/// What a registration returns, given whether the escrow transfer went through.
pub open spec fn registration_result(ctx: RegisterValidator, transfer_ok: bool) -> Result<
    (),
    ErrorCode,
> {
    match registration_check(ctx) {
        Some(e) => Err(e),
        None => if transfer_ok {
            Ok(())
        } else {
            Err(ErrorCode::TransferFailed)
        },
    }
}

/// The accounts after a successful registration: a fresh record, the stake
/// taken from the funding account, and the count one higher.
pub open spec fn registered(ctx: RegisterValidator) -> RegisterValidator {
    RegisterValidator {
        validator_state: Some(fresh_validator(ctx.validator_authority)),
        validator_registry: ValidatorRegistry {
            validator_count: (ctx.validator_registry.validator_count + 1) as u64,
            ..ctx.validator_registry
        },
        user_nst_amount: (ctx.user_nst_amount - MINIMUM_STAKE_NST) as u64,
        ..ctx
    }
}

/// The accounts after a registration attempt: changed only on success.
pub open spec fn registration_post(ctx: RegisterValidator, transfer_ok: bool) -> RegisterValidator {
    if registration_result(ctx, transfer_ok) is Ok {
        registered(ctx)
    } else {
        ctx
    }
}

/// The transfer that a registration needs, or the error that stops it before
/// any transfer is made.
pub fn registration_transfer(ctx: &RegisterValidator) -> (r: Result<EscrowTransfer, ErrorCode>)
    ensures
        match registration_check(*ctx) {
            Some(e) => r == Err::<EscrowTransfer, ErrorCode>(e),
            None => r == Ok::<EscrowTransfer, ErrorCode>(
                EscrowTransfer { owner: ctx.validator_authority, amount: MINIMUM_STAKE_NST },
            ),
        },
{
    if ctx.user_nst_amount < MINIMUM_STAKE_NST {
        return Err(ErrorCode::InsufficientStake);
    }
    if ctx.validator_state.is_some() {
        return Err(ErrorCode::DuplicateRecord);
    }
    if ctx.validator_registry.validator_count == u64::MAX {
        return Err(ErrorCode::ArithmeticOverflow);
    }
    Ok(EscrowTransfer { owner: ctx.validator_authority, amount: MINIMUM_STAKE_NST })
}

/// Completes a registration once the ledger has answered the transfer that
/// `registration_transfer` asked for (`transfer_ok`). All preconditions are
/// checked again; on any failure the accounts stay as they were.
pub fn register_validator(ctx: &mut RegisterValidator, transfer_ok: bool) -> (r: Result<
    (),
    ErrorCode,
>)
    ensures
        r == registration_result(*old(ctx), transfer_ok),
        *final(ctx) == registration_post(*old(ctx), transfer_ok),
{
    match registration_transfer(ctx) {
        Err(e) => {
            return Err(e);
        },
        Ok(_) => {},
    }
    if !transfer_ok {
        return Err(ErrorCode::TransferFailed);
    }
    ctx.validator_state = Some(
        ValidatorState {
            authority: ctx.validator_authority,
            stake_amount: MINIMUM_STAKE_NST,
            reputation_score: REPUTATION_MULTIPLIER,
            is_active: true,
        },
    );
    ctx.user_nst_amount = ctx.user_nst_amount - MINIMUM_STAKE_NST;
    ctx.validator_registry.validator_count = ctx.validator_registry.validator_count + 1;
    Ok(())
}

/// The accounts that a reputation update works on.
#[derive(Clone, Copy, Debug)]
pub struct UpdateReputation {
    /// Who signs the update.
    pub signer: Pubkey,
    /// The registry, which holds the designated authority.
    pub validator_registry: ValidatorRegistry,
    pub validator_state: ValidatorState,
}

/// The first failed precondition of a reputation update: the score's range,
/// then the signer.
pub open spec fn reputation_check(ctx: UpdateReputation, new_score: u64) -> Option<ErrorCode> {
    if new_score > REPUTATION_MULTIPLIER {
        Some(ErrorCode::InvalidReputationScore)
    } else if ctx.signer@ != ctx.validator_registry.authority@ {
        Some(ErrorCode::UnauthorizedAccess)
    } else {
        None
    }
}

/// What a reputation update returns.
pub open spec fn reputation_result(ctx: UpdateReputation, new_score: u64) -> Result<(), ErrorCode> {
    match reputation_check(ctx, new_score) {
        Some(e) => Err(e),
        None => Ok(()),
    }
}

/// The accounts after a reputation update: on success the score is replaced,
/// and nothing else changes.
pub open spec fn reputation_post(ctx: UpdateReputation, new_score: u64) -> UpdateReputation {
    if reputation_check(ctx, new_score) is None {
        UpdateReputation {
            validator_state: ValidatorState { reputation_score: new_score, ..ctx.validator_state },
            ..ctx
        }
    } else {
        ctx
    }
}

/// Replaces the validator's reputation score with `new_score_scaled`, when the
/// score is at most 10000 and the signer is the registry's authority.
pub fn update_reputation(ctx: &mut UpdateReputation, new_score_scaled: u64) -> (r: Result<
    (),
    ErrorCode,
>)
    ensures
        r == reputation_result(*old(ctx), new_score_scaled),
        *final(ctx) == reputation_post(*old(ctx), new_score_scaled),
{
    if new_score_scaled > REPUTATION_MULTIPLIER {
        return Err(ErrorCode::InvalidReputationScore);
    }
    if !authorize(&ctx.signer, &ctx.validator_registry.authority) {
        return Err(ErrorCode::UnauthorizedAccess);
    }
    ctx.validator_state.reputation_score = new_score_scaled;
    Ok(())
}

} // verus!
