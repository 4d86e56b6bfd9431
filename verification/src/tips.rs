use crate::address::Address;
use crate::derivation::{derived_address, tips_vault_address, tips_vault_seeds};
use crate::error::{outcome, ArtistError};
use crate::guard::authorize;
use crate::ledger::{transfer, transfer_spec, SystemAccount, SystemAccountView};
use crate::state::{Account, AccountView, ArtistProfile, ArtistProfileView};
use vstd::prelude::*;

verus! {

/// What `create_tips_vault` works on: the profile, its new vault and the
/// owner who pays for it.
#[derive(Clone, Debug)]
pub struct CreateTipsVault {
    pub artist_profile: Account<ArtistProfile>,
    pub tips_vault: SystemAccount,
    pub owner: Address,
}

/// What a [`CreateTipsVault`] holds, as mathematical values.
pub struct CreateTipsVaultView {
    pub artist_profile: AccountView<ArtistProfileView>,
    pub tips_vault: SystemAccountView,
    pub owner: Address,
}

impl View for CreateTipsVault {
    type V = CreateTipsVaultView;

    open spec fn view(&self) -> CreateTipsVaultView {
        CreateTipsVaultView {
            artist_profile: self.artist_profile@,
            tips_vault: self.tips_vault@,
            owner: self.owner,
        }
    }
}

impl CreateTipsVault {
    /// The state when the vault of the profile is made at `key`: a vault
    /// there that holds nothing.
    pub open spec fn spec_new(
        key: Address,
        artist_profile: AccountView<ArtistProfileView>,
        owner: Address,
    ) -> CreateTipsVaultView {
        CreateTipsVaultView {
            artist_profile,
            tips_vault: SystemAccountView { key, lamports: 0 },
            owner,
        }
    }

    /// An empty vault at `key` for the profile.
    pub fn new(key: Address, artist_profile: Account<ArtistProfile>, owner: Address) -> (ctx:
        CreateTipsVault)
        ensures
            ctx@ == CreateTipsVault::spec_new(key, artist_profile@, owner),
    {
        CreateTipsVault { artist_profile, tips_vault: SystemAccount { key, lamports: 0 }, owner }
    }

    /// An empty vault at the address derived for the vault of the profile,
    /// or `None` where the derivation gives no address.
    pub fn locate(program_id: &Address, artist_profile: Account<ArtistProfile>, owner: Address) -> (found:
        Option<CreateTipsVault>)
        ensures
            match derived_address(tips_vault_seeds(artist_profile.key), program_id@) {
                Some((address, bump)) => found matches Some(ctx) && ctx.tips_vault.key@ == address
                    && ctx@ == CreateTipsVault::spec_new(
                    ctx.tips_vault.key,
                    artist_profile@,
                    owner,
                ),
                None => found is None,
            },
    {
        match tips_vault_address(program_id, &artist_profile.key) {
            Some((key, _)) => Some(CreateTipsVault::new(key, artist_profile, owner)),
            None => None,
        }
    }
}

/// What `tip_artist` works on: the profile, its vault and the wallet that tips.
#[derive(Clone, Debug)]
pub struct TipArtist {
    pub artist_profile: Account<ArtistProfile>,
    pub tips_vault: SystemAccount,
    pub tipper: SystemAccount,
}

/// What a [`TipArtist`] holds, as mathematical values.
pub struct TipArtistView {
    pub artist_profile: AccountView<ArtistProfileView>,
    pub tips_vault: SystemAccountView,
    pub tipper: SystemAccountView,
}

impl View for TipArtist {
    type V = TipArtistView;

    open spec fn view(&self) -> TipArtistView {
        TipArtistView {
            artist_profile: self.artist_profile@,
            tips_vault: self.tips_vault@,
            tipper: self.tipper@,
        }
    }
}

/// What `withdraw_tips` works on: the profile, its vault, the wallet that
/// receives, which must be the owner's, and the caller.
#[derive(Clone, Debug)]
pub struct WithdrawTips {
    pub artist_profile: Account<ArtistProfile>,
    pub tips_vault: SystemAccount,
    pub artist: SystemAccount,
    pub owner: Address,
}

/// What a [`WithdrawTips`] holds, as mathematical values.
pub struct WithdrawTipsView {
    pub artist_profile: AccountView<ArtistProfileView>,
    pub tips_vault: SystemAccountView,
    pub artist: SystemAccountView,
    pub owner: Address,
}

impl View for WithdrawTips {
    type V = WithdrawTipsView;

    open spec fn view(&self) -> WithdrawTipsView {
        WithdrawTipsView {
            artist_profile: self.artist_profile@,
            tips_vault: self.tips_vault@,
            artist: self.artist@,
            owner: self.owner,
        }
    }
}

/// What a tip does: a positive amount moves from the tipper to the vault, and
/// the profile adds it to the tips it has received in all.
pub open spec fn tip_artist_spec(pre: TipArtistView, amount: nat) -> Result<TipArtistView, ArtistError> {
    let profile = pre.artist_profile.data;
    if amount == 0 {
        Err(ArtistError::InvalidAmount)
    } else {
        match transfer_spec(pre.tipper, pre.tips_vault, amount) {
            Err(error) => Err(error),
            Ok((tipper, tips_vault)) => if profile.total_tips + amount > u64::MAX {
                Err(ArtistError::NumericalOverflow)
            } else {
                Ok(
                    TipArtistView {
                        artist_profile: AccountView {
                            key: pre.artist_profile.key,
                            data: ArtistProfileView {
                                total_tips: profile.total_tips + amount,
                                ..profile
                            },
                        },
                        tips_vault,
                        tipper,
                    },
                )
            },
        }
    }
}

/// What a withdrawal does: for the owner of the profile, and into the
/// owner's own wallet, an amount that the vault holds, and that leaves it at
/// least `minimum_reserve`, moves from the vault to that wallet. A wallet
/// under another key is refused as a caller who is not the owner is. The
/// profile keeps its count of tips.
pub open spec fn withdraw_tips_spec(pre: WithdrawTipsView, amount: nat, minimum_reserve: nat) -> Result<
    WithdrawTipsView,
    ArtistError,
> {
    if pre.owner != pre.artist_profile.data.owner {
        Err(ArtistError::Unauthorized)
    } else if pre.artist.key != pre.artist_profile.data.owner {
        Err(ArtistError::Unauthorized)
    } else if pre.tips_vault.lamports < amount {
        Err(ArtistError::InsufficientFunds)
    } else if pre.tips_vault.lamports - amount < minimum_reserve {
        Err(ArtistError::InsufficientFunds)
    } else {
        match transfer_spec(pre.tips_vault, pre.artist, amount) {
            Err(error) => Err(error),
            Ok((tips_vault, artist)) => Ok(
                WithdrawTipsView {
                    artist_profile: pre.artist_profile,
                    tips_vault,
                    artist,
                    owner: pre.owner,
                },
            ),
        }
    }
}

/// Accepts the new vault of a profile. The ledger has made the vault; there
/// is nothing to write.
pub fn create_tips_vault(ctx: &mut CreateTipsVault) -> (result: Result<(), ArtistError>)
    ensures
        result is Ok,
        *final(ctx) == *old(ctx),
{
    Ok(())
}

/// Tips the artist with `amount` from the tipper's wallet.
pub fn tip_artist(ctx: &mut TipArtist, amount: u64) -> (result: Result<(), ArtistError>)
    ensures
        outcome(result, old(ctx)@, final(ctx)@, tip_artist_spec(old(ctx)@, amount as nat)),
        result is Err ==> *final(ctx) == *old(ctx),
{
    if amount == 0 {
        return Err(ArtistError::InvalidAmount);
    }
    let mut tipper = ctx.tipper;
    let mut tips_vault = ctx.tips_vault;
    if let Err(error) = transfer(&mut tipper, &mut tips_vault, amount) {
        return Err(error);
    }
    match ctx.artist_profile.data.total_tips.checked_add(amount) {
        None => Err(ArtistError::NumericalOverflow),
        Some(total) => {
            ctx.tipper = tipper;
            ctx.tips_vault = tips_vault;
            ctx.artist_profile.data.total_tips = total;
            Ok(())
        },
    }
}

/// Pays `amount` out of the vault into the owner's wallet. The vault must
/// keep at least `minimum_reserve`.
pub fn withdraw_tips(ctx: &mut WithdrawTips, amount: u64, minimum_reserve: u64) -> (result: Result<
    (),
    ArtistError,
>)
    ensures
        outcome(
            result,
            old(ctx)@,
            final(ctx)@,
            withdraw_tips_spec(old(ctx)@, amount as nat, minimum_reserve as nat),
        ),
        result is Err ==> *final(ctx) == *old(ctx),
{
    if let Err(error) = authorize(&ctx.owner, &ctx.artist_profile.data.owner) {
        return Err(error);
    }
    if let Err(error) = authorize(&ctx.artist.key, &ctx.artist_profile.data.owner) {
        return Err(error);
    }
    let vault_balance = ctx.tips_vault.lamports;
    if vault_balance < amount {
        return Err(ArtistError::InsufficientFunds);
    }
    if vault_balance - amount < minimum_reserve {
        return Err(ArtistError::InsufficientFunds);
    }
    transfer(&mut ctx.tips_vault, &mut ctx.artist, amount)
}

/// A tip that succeeds raises the vault and the tips that the profile has
/// received in all by exactly the amount, and lowers the tipper's balance
/// by it. A tip of nothing is refused as an invalid amount.
pub proof fn law_tip_moves_exactly_the_amount(pre: TipArtistView, amount: nat)
    ensures
        amount == 0 ==> tip_artist_spec(pre, amount) == Err::<TipArtistView, ArtistError>(
            ArtistError::InvalidAmount,
        ),
        tip_artist_spec(pre, amount) matches Ok(post) ==> {
            &&& post.tips_vault.lamports == pre.tips_vault.lamports + amount
            &&& post.artist_profile.data.total_tips == pre.artist_profile.data.total_tips + amount
            &&& post.tipper.lamports + amount == pre.tipper.lamports
        },
        tip_artist_spec(pre, amount) is Ok <==> {
            &&& 0 < amount <= pre.tipper.lamports
            &&& pre.tips_vault.lamports + amount <= u64::MAX
            &&& pre.artist_profile.data.total_tips + amount <= u64::MAX
        },
{
}

/// A withdrawal that would leave the vault with less than the reserve is
/// refused for want of funds. One that succeeds leaves the reserve in the
/// vault, moves exactly the amount, and leaves the profile as it was.
pub proof fn law_withdrawal_keeps_the_reserve(pre: WithdrawTipsView, amount: nat, minimum_reserve: nat)
    ensures
        pre.owner == pre.artist_profile.data.owner && pre.artist.key
            == pre.artist_profile.data.owner && pre.tips_vault.lamports < amount + minimum_reserve
            ==> withdraw_tips_spec(pre, amount, minimum_reserve) == Err::<
            WithdrawTipsView,
            ArtistError,
        >(ArtistError::InsufficientFunds),
        withdraw_tips_spec(pre, amount, minimum_reserve) matches Ok(post) ==> {
            &&& post.tips_vault.lamports >= minimum_reserve
            &&& post.tips_vault.lamports + amount == pre.tips_vault.lamports
            &&& post.artist.lamports == pre.artist.lamports + amount
            &&& post.artist_profile == pre.artist_profile
        },
{
}

/// A withdrawal succeeds only for the owner of the profile, and pays no
/// wallet but the owner's: a caller or a receiving wallet under another key
/// is refused as unauthorized, whatever the vault holds.
pub proof fn law_withdrawal_pays_the_owner_only(
    pre: WithdrawTipsView,
    amount: nat,
    minimum_reserve: nat,
)
    ensures
        withdraw_tips_spec(pre, amount, minimum_reserve) matches Ok(post) ==> {
            &&& pre.owner == pre.artist_profile.data.owner
            &&& post.artist.key == pre.artist_profile.data.owner
            &&& post.tips_vault.key == pre.tips_vault.key
        },
        pre.owner != pre.artist_profile.data.owner || pre.artist.key
            != pre.artist_profile.data.owner ==> withdraw_tips_spec(pre, amount, minimum_reserve)
            == Err::<WithdrawTipsView, ArtistError>(ArtistError::Unauthorized),
{
}

/// What was tipped and then withdrawn again leaves the vault as it was,
/// while the tips that the profile has received in all stay raised.
pub proof fn law_tips_total_is_cumulative(
    tip: TipArtistView,
    amount: nat,
    withdrawal: WithdrawTipsView,
    minimum_reserve: nat,
)
    requires
        tip_artist_spec(tip, amount) is Ok,
        withdrawal.tips_vault == tip_artist_spec(tip, amount)->Ok_0.tips_vault,
        withdrawal.artist_profile == tip_artist_spec(tip, amount)->Ok_0.artist_profile,
        withdraw_tips_spec(withdrawal, amount, minimum_reserve) is Ok,
    ensures
        withdraw_tips_spec(withdrawal, amount, minimum_reserve)->Ok_0.tips_vault == tip.tips_vault,
        withdraw_tips_spec(withdrawal, amount, minimum_reserve)->Ok_0.artist_profile.data.total_tips
            == tip.artist_profile.data.total_tips + amount,
{
}

} // verus!
