use vstd::prelude::*;
use crate::error::ProgramError;
use crate::keys::Pubkey;

verus! {

/// A token account: a balance of one mint, spendable by one authority.
#[derive(Clone, Copy, PartialEq, Eq, Debug)]
pub struct TokenAccount {
    pub mint: Pubkey,
    pub authority: Pubkey,
    pub amount: u64,
}

/// The two accounts after `amount` moved from the first to the second, or the
/// rejection: the sender holds too little, or the receiver's balance would overflow.
pub open spec fn transfer_spec(from: TokenAccount, to: TokenAccount, amount: u64) -> Result<
    (TokenAccount, TokenAccount),
    ProgramError,
> {
    if from.amount < amount || to.amount + amount > u64::MAX {
        Err(ProgramError::ArithmeticOrBalanceError)
    } else {
        Ok(
            (
                TokenAccount { amount: (from.amount - amount) as u64, ..from },
                TokenAccount { amount: (to.amount + amount) as u64, ..to },
            ),
        )
    }
}

/// Moves exactly `amount` from `from` to `to`; on rejection neither changes.
pub fn transfer(from: &mut TokenAccount, to: &mut TokenAccount, amount: u64) -> (r: Result<
    (),
    ProgramError,
>)
    ensures
        match transfer_spec(*old(from), *old(to), amount) {
            Ok((f, t)) => r is Ok && *final(from) == f && *final(to) == t,
            Err(e) => r == Err::<(), ProgramError>(e) && *final(from) == *old(from) && *final(to)
                == *old(to),
        },
{
    if from.amount < amount || to.amount > u64::MAX - amount {
        return Err(ProgramError::ArithmeticOrBalanceError);
    }
    from.amount = from.amount - amount;
    to.amount = to.amount + amount;
    Ok(())
}

} // verus!
