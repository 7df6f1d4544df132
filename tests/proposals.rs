use nst_staking::{create_proposal, CreateProposal, ProposalError, ProposalState, Pubkey};

#[test]
fn create_proposal_records_open_proposal() {
    let author = Pubkey::new_from_array([5; 32]);
    let mut ctx = CreateProposal { proposal: None, author };
    let r = create_proposal(&mut ctx, "Title".to_string(), "Body text".to_string());
    assert_eq!(r, Ok(()));
    let p = ctx.proposal.unwrap();
    assert!(p.author == author);
    assert_eq!(p.title, "Title");
    assert_eq!(p.description, "Body text");
    assert_eq!(p.state, ProposalState::Open);
}

#[test]
fn create_proposal_in_used_account_fails() {
    let author = Pubkey::new_from_array([5; 32]);
    let mut ctx = CreateProposal { proposal: None, author };
    assert_eq!(create_proposal(&mut ctx, "First".to_string(), String::new()), Ok(()));
    let r = create_proposal(&mut ctx, "Second".to_string(), "x".to_string());
    assert_eq!(r, Err(ProposalError::AccountAlreadyInUse));
    assert_eq!(ctx.proposal.unwrap().title, "First");
}
