use crate::address::Address;
use crate::error::{outcome, ArtistError};
use vstd::prelude::*;

verus! {

/// An account that holds a balance and nothing else: a wallet or a tips vault.
#[derive(Clone, Copy, Debug)]
pub struct SystemAccount {
    pub key: Address,
    pub lamports: u64,
}

/// What a [`SystemAccount`] holds, as mathematical values.
pub struct SystemAccountView {
    pub key: Address,
    pub lamports: nat,
}

impl View for SystemAccount {
    type V = SystemAccountView;

    open spec fn view(&self) -> SystemAccountView {
        SystemAccountView { key: self.key, lamports: self.lamports as nat }
    }
}

impl SystemAccountView {
    /// The same account with `amount` more.
    pub open spec fn credited(self, amount: nat) -> SystemAccountView {
        SystemAccountView { key: self.key, lamports: self.lamports + amount }
    }

    /// The same account with `amount` less.
    pub open spec fn debited(self, amount: nat) -> SystemAccountView
        recommends
            amount <= self.lamports,
    {
        SystemAccountView { key: self.key, lamports: (self.lamports - amount) as nat }
    }
}

/// What a transfer of `amount` does to the paying and the receiving account:
/// it is refused where the payer holds less, or the receiver would hold more
/// than a balance can express.
pub open spec fn transfer_spec(from: SystemAccountView, to: SystemAccountView, amount: nat) -> Result<
    (SystemAccountView, SystemAccountView),
    ArtistError,
> {
    if from.lamports < amount {
        Err(ArtistError::InsufficientFunds)
    } else if to.lamports + amount > u64::MAX {
        Err(ArtistError::NumericalOverflow)
    } else {
        Ok((from.debited(amount), to.credited(amount)))
    }
}

/// The balance of an account.
pub fn balance_of(account: &SystemAccount) -> (balance: u64)
    ensures
        balance == account@.lamports,
{
    account.lamports
}

/// Moves `amount` from one account to another, all of it or nothing.
pub fn transfer(from: &mut SystemAccount, to: &mut SystemAccount, amount: u64) -> (result: Result<
    (),
    ArtistError,
>)
    ensures
        outcome(
            result,
            (old(from)@, old(to)@),
            (final(from)@, final(to)@),
            transfer_spec(old(from)@, old(to)@, amount as nat),
        ),
        final(from)@.lamports + final(to)@.lamports == old(from)@.lamports + old(to)@.lamports,
{
    if from.lamports < amount {
        return Err(ArtistError::InsufficientFunds);
    }
    match to.lamports.checked_add(amount) {
        None => Err(ArtistError::NumericalOverflow),
        Some(raised) => {
            from.lamports = from.lamports - amount;
            to.lamports = raised;
            Ok(())
        },
    }
}

} // verus!
