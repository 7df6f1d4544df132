use vstd::prelude::*;

use crate::pubkey::Pubkey;

verus! {

/// Whether a proposal is still open.
#[derive(Clone, Copy, Debug, PartialEq, Eq, Structural)]
pub enum ProposalState {
    Open,
    Closed,
}

/// A titled document registered by its author.
#[derive(Clone, Debug)]
pub struct Proposal {
    pub author: Pubkey,
    pub title: String,
    pub description: String,
    pub state: ProposalState,
}

/// Why a proposal could not be created.
#[derive(Clone, Copy, Debug, PartialEq, Eq, Structural)]
pub enum ProposalError {
    /// The proposal account holds a proposal already.
    AccountAlreadyInUse,
}

/// The accounts that proposal creation works on.
#[derive(Clone, Debug)]
pub struct CreateProposal {
    /// The proposal account; `None` while it is unused.
    pub proposal: Option<Proposal>,
    pub author: Pubkey,
}

/// Records an open proposal by the signing author in an unused account.
pub fn create_proposal(ctx: &mut CreateProposal, title: String, description: String) -> (r: Result<
    (),
    ProposalError,
>)
    ensures
        old(ctx).proposal is Some ==> r == Err::<(), ProposalError>(
            ProposalError::AccountAlreadyInUse,
        ) && *final(ctx) == *old(ctx),
        old(ctx).proposal is None ==> r is Ok && *final(ctx) == (CreateProposal {
            proposal: Some(
                Proposal { author: old(ctx).author, title, description, state: ProposalState::Open },
            ),
            ..*old(ctx)
        }),
{
    if ctx.proposal.is_some() {
        return Err(ProposalError::AccountAlreadyInUse);
    }
    ctx.proposal = Some(
        Proposal { author: ctx.author, title, description, state: ProposalState::Open },
    );
    Ok(())
}

} // verus!
