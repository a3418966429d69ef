use vstd::prelude::*;

use crate::accounts::Proposal;
use crate::accounts::Voter;
use crate::arith;
use crate::errors::CustomError;

verus! {

/// Outcome of a vote: a weight above the voter's token balance is
/// rejected; otherwise the weight is checked-added to the proposal's tally.
pub open spec fn vote_outcome(voter: Voter, proposal: Proposal, vote_weight: u64) -> Result<
    Proposal,
    CustomError,
> {
    if voter.token_balance < vote_weight {
        Err(CustomError::InsufficientVotingPower)
    } else if proposal.votes + vote_weight > u64::MAX {
        Err(CustomError::ArithmeticOverflow)
    } else {
        Ok(Proposal { votes: (proposal.votes + vote_weight) as u64, ..proposal })
    }
}

/// Cast a vote of `vote_weight` on the proposal. The voter's token balance
/// only bounds the weight and is not spent: the same balance can back
/// repeated votes.
pub fn vote(voter: &Voter, proposal: &mut Proposal, vote_weight: u64) -> (r: Result<
    (),
    CustomError,
>)
    ensures
        vote_outcome(*voter, *old(proposal), vote_weight) matches Ok(p) ==> r == Ok::<
            (),
            CustomError,
        >(()) && *final(proposal) == p,
        vote_outcome(*voter, *old(proposal), vote_weight) matches Err(e) ==> r == Err::<
            (),
            CustomError,
        >(e) && *final(proposal) == *old(proposal),
{
    if voter.token_balance < vote_weight {
        return Err(CustomError::InsufficientVotingPower);
    }
    let tally = match arith::checked_add(proposal.votes, vote_weight) {
        Ok(v) => v,
        Err(e) => {
            return Err(e);
        },
    };
    proposal.votes = tally;
    Ok(())
}

} // verus!
