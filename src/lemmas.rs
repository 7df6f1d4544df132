use vstd::prelude::*;

use crate::staking::{
    fresh_validator, registered, registration_check, registration_post, registration_result,
    reputation_post, reputation_result, ErrorCode, RegisterValidator, UpdateReputation,
    MINIMUM_STAKE_NST, REPUTATION_MULTIPLIER,
};

verus! {

/// A registration whose funding balance is below the minimum stake fails
/// with `InsufficientStake`, asks for no transfer and changes nothing.
pub proof fn lemma_insufficient_stake_rejected(ctx: RegisterValidator, transfer_ok: bool)
    requires
        ctx.user_nst_amount < MINIMUM_STAKE_NST,
    ensures
        registration_check(ctx) == Some(ErrorCode::InsufficientStake),
        registration_result(ctx, transfer_ok) == Err::<(), ErrorCode>(
            ErrorCode::InsufficientStake,
        ),
        registration_post(ctx, transfer_ok) == ctx,
{
}

/// A successful registration leaves a record holding exactly the minimum
/// stake, a full reputation score and the active flag, and a count one higher.
pub proof fn lemma_registration_success(ctx: RegisterValidator, transfer_ok: bool)
    requires
        registration_result(ctx, transfer_ok) is Ok,
    ensures
        registration_post(ctx, transfer_ok).validator_state == Some(
            fresh_validator(ctx.validator_authority),
        ),
        fresh_validator(ctx.validator_authority).stake_amount == MINIMUM_STAKE_NST,
        fresh_validator(ctx.validator_authority).reputation_score == REPUTATION_MULTIPLIER,
        fresh_validator(ctx.validator_authority).is_active,
        fresh_validator(ctx.validator_authority).wf(),
        registration_post(ctx, transfer_ok).validator_registry.validator_count
            == ctx.validator_registry.validator_count + 1,
{
}

/// Registering the same identity a second time, with a funding balance of at
/// least the minimum stake, fails with `DuplicateRecord` and leaves the
/// accounts as they were: no second transfer is asked for or taken.
pub proof fn lemma_register_twice(
    ctx: RegisterValidator,
    first_ok: bool,
    funding: u64,
    second_ok: bool,
)
    requires
        registration_result(ctx, first_ok) is Ok,
        funding >= MINIMUM_STAKE_NST,
    ensures
        ({
            let again = RegisterValidator { user_nst_amount: funding, ..registered(ctx) };
            &&& registration_post(ctx, first_ok) == registered(ctx)
            &&& registration_check(again) == Some(ErrorCode::DuplicateRecord)
            &&& registration_result(again, second_ok) == Err::<(), ErrorCode>(
                ErrorCode::DuplicateRecord,
            )
            &&& registration_post(again, second_ok) == again
        }),
{
}

/// A reputation update with a score above 10000 fails with
/// `InvalidReputationScore`, whoever signs it, and leaves the score as it was.
pub proof fn lemma_score_out_of_range(ctx: UpdateReputation, new_score: u64)
    requires
        new_score > REPUTATION_MULTIPLIER,
    ensures
        reputation_result(ctx, new_score) == Err::<(), ErrorCode>(
            ErrorCode::InvalidReputationScore,
        ),
        reputation_post(ctx, new_score) == ctx,
{
}

/// A reputation update with a valid score signed by anyone but the registry's
/// authority fails with `UnauthorizedAccess` and leaves the score as it was.
pub proof fn lemma_unauthorized_update(ctx: UpdateReputation, new_score: u64)
    requires
        new_score <= REPUTATION_MULTIPLIER,
        ctx.signer@ != ctx.validator_registry.authority@,
    ensures
        reputation_result(ctx, new_score) == Err::<(), ErrorCode>(ErrorCode::UnauthorizedAccess),
        reputation_post(ctx, new_score) == ctx,
{
}

/// The authority can set the score to either end of its range, 0 and 10000,
/// and the score is then exactly that value.
pub proof fn lemma_score_boundaries(ctx: UpdateReputation)
    requires
        ctx.signer@ == ctx.validator_registry.authority@,
    ensures
        reputation_result(ctx, 0) is Ok,
        reputation_post(ctx, 0).validator_state.reputation_score == 0,
        reputation_result(ctx, REPUTATION_MULTIPLIER) is Ok,
        reputation_post(ctx, REPUTATION_MULTIPLIER).validator_state.reputation_score
            == REPUTATION_MULTIPLIER,
{
}

/// Applying the same reputation update twice leaves the accounts as applying
/// it once does, and the second application returns what the first did.
pub proof fn lemma_update_idempotent(ctx: UpdateReputation, new_score: u64)
    ensures
        reputation_post(reputation_post(ctx, new_score), new_score) == reputation_post(
            ctx,
            new_score,
        ),
        reputation_result(reputation_post(ctx, new_score), new_score) == reputation_result(
            ctx,
            new_score,
        ),
{
}

/// Every operation keeps a validator record well formed.
pub proof fn lemma_records_stay_well_formed(
    reg: RegisterValidator,
    transfer_ok: bool,
    upd: UpdateReputation,
    new_score: u64,
)
    requires
        reg.validator_state matches Some(s) ==> s.wf(),
        upd.validator_state.wf(),
    ensures
        registration_post(reg, transfer_ok).validator_state matches Some(s) ==> s.wf(),
        reputation_post(upd, new_score).validator_state.wf(),
{
}

} // verus!
