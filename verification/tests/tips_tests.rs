use artist_platform::{
    balance_of, create_tips_vault, tip_artist, transfer, withdraw_tips, Account, Address,
    ArtistError, ArtistProfile, CreateTipsVault, SystemAccount, TipArtist, WithdrawTips,
};

fn owner() -> Address {
    Address::new([7u8; 32])
}

fn profile(total_tips: u64) -> Account<ArtistProfile> {
    let mut data = ArtistProfile::default();
    data.owner = owner();
    data.name = "Alice".to_string();
    data.total_tips = total_tips;
    Account { key: Address::new([9u8; 32]), data }
}

fn wallet(n: u8, lamports: u64) -> SystemAccount {
    SystemAccount { key: Address::new([n; 32]), lamports }
}

fn tipping(total_tips: u64, vault: u64, tipper: u64) -> TipArtist {
    TipArtist {
        artist_profile: profile(total_tips),
        tips_vault: wallet(3, vault),
        tipper: wallet(4, tipper),
    }
}

fn withdrawing(vault: u64, artist: u64, caller: Address) -> WithdrawTips {
    WithdrawTips {
        artist_profile: profile(1000),
        tips_vault: wallet(3, vault),
        artist: wallet(7, artist),
        owner: caller,
    }
}

#[test]
fn create_tips_vault_changes_nothing() {
    let mut ctx = CreateTipsVault {
        artist_profile: profile(5),
        tips_vault: wallet(3, 890_880),
        owner: owner(),
    };
    assert_eq!(create_tips_vault(&mut ctx), Ok(()));
    assert_eq!(ctx.tips_vault.lamports, 890_880);
    assert_eq!(ctx.tips_vault.key, Address::new([3u8; 32]));
    assert_eq!(ctx.artist_profile.data.total_tips, 5);
    assert_eq!(ctx.owner, owner());
}

#[test]
fn tip_moves_the_amount_and_adds_it_to_the_total() {
    let mut ctx = tipping(10, 100, 5000);
    assert_eq!(tip_artist(&mut ctx, 1000), Ok(()));
    assert_eq!(ctx.tips_vault.lamports, 1100);
    assert_eq!(ctx.tipper.lamports, 4000);
    assert_eq!(ctx.artist_profile.data.total_tips, 1010);
    assert_eq!(ctx.artist_profile.data.name, "Alice");
    assert_eq!(ctx.tipper.key, Address::new([4u8; 32]));
}

#[test]
fn tip_of_all_the_tipper_has_is_accepted() {
    let mut ctx = tipping(0, 0, 1);
    assert_eq!(tip_artist(&mut ctx, 1), Ok(()));
    assert_eq!(ctx.tipper.lamports, 0);
    assert_eq!(ctx.tips_vault.lamports, 1);
    assert_eq!(ctx.artist_profile.data.total_tips, 1);
}

#[test]
fn tip_of_zero_is_invalid_and_changes_nothing() {
    let mut ctx = tipping(10, 100, 5000);
    assert_eq!(tip_artist(&mut ctx, 0), Err(ArtistError::InvalidAmount));
    assert_eq!(ctx.tips_vault.lamports, 100);
    assert_eq!(ctx.tipper.lamports, 5000);
    assert_eq!(ctx.artist_profile.data.total_tips, 10);
}

#[test]
fn tip_over_the_tippers_balance_fails() {
    let mut ctx = tipping(10, 100, 999);
    assert_eq!(tip_artist(&mut ctx, 1000), Err(ArtistError::InsufficientFunds));
    assert_eq!(ctx.tips_vault.lamports, 100);
    assert_eq!(ctx.tipper.lamports, 999);
    assert_eq!(ctx.artist_profile.data.total_tips, 10);
}

#[test]
fn tip_reports_overflow_of_the_vault() {
    let mut ctx = tipping(10, u64::MAX, 5000);
    assert_eq!(tip_artist(&mut ctx, 1), Err(ArtistError::NumericalOverflow));
    assert_eq!(ctx.tips_vault.lamports, u64::MAX);
    assert_eq!(ctx.tipper.lamports, 5000);
    assert_eq!(ctx.artist_profile.data.total_tips, 10);
}

#[test]
fn tip_reports_overflow_of_the_total_and_moves_nothing() {
    let mut ctx = tipping(u64::MAX - 5, 100, 5000);
    assert_eq!(tip_artist(&mut ctx, 6), Err(ArtistError::NumericalOverflow));
    assert_eq!(ctx.tips_vault.lamports, 100);
    assert_eq!(ctx.tipper.lamports, 5000);
    assert_eq!(ctx.artist_profile.data.total_tips, u64::MAX - 5);
    assert_eq!(tip_artist(&mut ctx, 5), Ok(()));
    assert_eq!(ctx.artist_profile.data.total_tips, u64::MAX);
}

#[test]
fn withdraw_moves_the_amount_to_the_artist() {
    let mut ctx = withdrawing(5000, 10, owner());
    assert_eq!(withdraw_tips(&mut ctx, 1500, 890), Ok(()));
    assert_eq!(ctx.tips_vault.lamports, 3500);
    assert_eq!(ctx.artist.lamports, 1510);
    assert_eq!(ctx.artist_profile.data.total_tips, 1000);
}

#[test]
fn withdraw_may_leave_exactly_the_reserve() {
    let mut ctx = withdrawing(5000, 10, owner());
    assert_eq!(withdraw_tips(&mut ctx, 4110, 890), Ok(()));
    assert_eq!(ctx.tips_vault.lamports, 890);
    assert_eq!(ctx.artist.lamports, 4120);
}

#[test]
fn withdraw_below_the_reserve_fails_and_changes_nothing() {
    let mut ctx = withdrawing(5000, 10, owner());
    assert_eq!(withdraw_tips(&mut ctx, 4111, 890), Err(ArtistError::InsufficientFunds));
    assert_eq!(ctx.tips_vault.lamports, 5000);
    assert_eq!(ctx.artist.lamports, 10);
}

#[test]
fn withdraw_over_the_balance_fails_and_changes_nothing() {
    let mut ctx = withdrawing(5000, 10, owner());
    assert_eq!(withdraw_tips(&mut ctx, 5001, 0), Err(ArtistError::InsufficientFunds));
    assert_eq!(ctx.tips_vault.lamports, 5000);
    assert_eq!(ctx.artist.lamports, 10);
}

#[test]
fn withdraw_is_for_the_owner_only() {
    let mut ctx = withdrawing(5000, 10, Address::new([8u8; 32]));
    assert_eq!(withdraw_tips(&mut ctx, 1, 0), Err(ArtistError::Unauthorized));
    assert_eq!(withdraw_tips(&mut ctx, 5001, 0), Err(ArtistError::Unauthorized));
    assert_eq!(ctx.tips_vault.lamports, 5000);
    assert_eq!(ctx.artist.lamports, 10);
}

#[test]
fn withdraw_reports_overflow_of_the_artists_wallet() {
    let mut ctx = withdrawing(5000, u64::MAX - 10, owner());
    assert_eq!(withdraw_tips(&mut ctx, 11, 0), Err(ArtistError::NumericalOverflow));
    assert_eq!(ctx.tips_vault.lamports, 5000);
    assert_eq!(ctx.artist.lamports, u64::MAX - 10);
    assert_eq!(withdraw_tips(&mut ctx, 10, 0), Ok(()));
    assert_eq!(ctx.artist.lamports, u64::MAX);
}

#[test]
fn withdraw_of_nothing_still_needs_the_reserve() {
    let mut ctx = withdrawing(5, 10, owner());
    assert_eq!(withdraw_tips(&mut ctx, 0, 6), Err(ArtistError::InsufficientFunds));
    assert_eq!(withdraw_tips(&mut ctx, 0, 5), Ok(()));
    assert_eq!(ctx.tips_vault.lamports, 5);
    assert_eq!(ctx.artist.lamports, 10);
}

#[test]
fn transfer_is_all_or_nothing() {
    let mut from = wallet(1, 100);
    let mut to = wallet(2, 7);
    assert_eq!(transfer(&mut from, &mut to, 101), Err(ArtistError::InsufficientFunds));
    assert_eq!((balance_of(&from), balance_of(&to)), (100, 7));
    assert_eq!(transfer(&mut from, &mut to, 60), Ok(()));
    assert_eq!((balance_of(&from), balance_of(&to)), (40, 67));
    assert_eq!(transfer(&mut from, &mut to, 0), Ok(()));
    assert_eq!((balance_of(&from), balance_of(&to)), (40, 67));
    let mut full = wallet(3, u64::MAX - 39);
    assert_eq!(transfer(&mut from, &mut full, 40), Err(ArtistError::NumericalOverflow));
    assert_eq!((balance_of(&from), balance_of(&full)), (40, u64::MAX - 39));
    assert_eq!(transfer(&mut from, &mut full, 39), Ok(()));
    assert_eq!((balance_of(&from), balance_of(&full)), (1, u64::MAX));
    assert_eq!(from.key, Address::new([1u8; 32]));
}

#[test]
fn tip_then_withdraw_returns_the_vault_and_keeps_the_total() {
    let mut tip = tipping(0, 0, 1000);
    assert_eq!(tip_artist(&mut tip, 1000), Ok(()));
    assert_eq!(tip.tips_vault.lamports, 1000);
    assert_eq!(tip.artist_profile.data.total_tips, 1000);
    let mut ctx = WithdrawTips {
        artist_profile: tip.artist_profile,
        tips_vault: tip.tips_vault,
        artist: wallet(7, 0),
        owner: owner(),
    };
    assert_eq!(withdraw_tips(&mut ctx, 1000, 0), Ok(()));
    assert_eq!(ctx.tips_vault.lamports, 0);
    assert_eq!(ctx.artist.lamports, 1000);
    assert_eq!(ctx.artist_profile.data.total_tips, 1000);
}

#[test]
fn withdraw_pays_no_wallet_but_the_owners() {
    let mut ctx = WithdrawTips {
        artist_profile: profile(1000),
        tips_vault: wallet(3, 5000),
        artist: wallet(8, 10),
        owner: owner(),
    };
    assert_eq!(withdraw_tips(&mut ctx, 1500, 0), Err(ArtistError::Unauthorized));
    assert_eq!(ctx.tips_vault.lamports, 5000);
    assert_eq!(ctx.artist.lamports, 10);
    assert_eq!(withdraw_tips(&mut ctx, 5001, 0), Err(ArtistError::Unauthorized));
    assert_eq!(withdraw_tips(&mut ctx, 0, 0), Err(ArtistError::Unauthorized));

    ctx.artist = wallet(7, 10);
    assert_eq!(withdraw_tips(&mut ctx, 1500, 0), Ok(()));
    assert_eq!(ctx.tips_vault.lamports, 3500);
    assert_eq!(ctx.artist.lamports, 1510);
    assert_eq!(ctx.artist.key, owner());
}

#[test]
fn withdraw_into_the_callers_wallet_needs_the_caller_to_own_the_profile() {
    let stranger = Address::new([8u8; 32]);
    let mut ctx = WithdrawTips {
        artist_profile: profile(1000),
        tips_vault: wallet(3, 5000),
        artist: wallet(8, 10),
        owner: stranger,
    };
    assert_eq!(withdraw_tips(&mut ctx, 1500, 0), Err(ArtistError::Unauthorized));
    assert_eq!(ctx.tips_vault.lamports, 5000);
    assert_eq!(ctx.artist.lamports, 10);
}
