use artist_platform::{
    create_artist_profile, interact_with_work, post_work, tip_artist, withdraw_tips, Address,
    ArtistError, CreateArtistProfile, InteractWithWork, InteractionType, PostWork, SystemAccount,
    TipArtist, WithdrawTips,
};

const PROGRAM: [u8; 32] = [
    57, 34, 155, 92, 118, 185, 176, 28, 86, 64, 192, 145, 175, 187, 66, 218, 144, 54, 222, 228,
    221, 227, 172, 118, 148, 173, 61, 105, 159, 202, 82, 90,
];

#[test]
fn scenario_profile_work_like_and_second_like() {
    let program = Address::new(PROGRAM);
    let alice = Address::new([7u8; 32]);
    let user = Address::new([8u8; 32]);

    let mut create = CreateArtistProfile::locate(&program, alice).unwrap();
    let derived_bump = create.bump;
    let result = create_artist_profile(&mut create, "Alice".to_string(), "bio".to_string(), vec![]);
    assert_eq!(result, Ok(()));
    assert_eq!(create.artist_profile.data.bump, derived_bump);
    assert_eq!(create.artist_profile.data.bump, 253);

    let mut post = PostWork::locate(&program, create.artist_profile, alice).unwrap();
    let result = post_work(&mut post, "T".to_string(), "D".to_string(), "url".to_string(), 100);
    assert_eq!(result, Ok(()));
    assert_eq!(post.artist_profile.data.work_count, 1);
    assert_eq!(post.work.data.likes, 0);

    let mut meet = InteractWithWork::locate(&program, post.work, user).unwrap();
    assert_eq!(interact_with_work(&mut meet, InteractionType::Like, None, 101), Ok(()));
    assert_eq!(meet.work.data.likes, 1);

    let again = interact_with_work(&mut meet, InteractionType::Like, None, 102);
    assert_eq!(again, Err(ArtistError::AlreadyLiked));
    assert_eq!(meet.work.data.likes, 1);
}

#[test]
fn scenario_tip_then_withdraw_with_no_reserve() {
    let program = Address::new(PROGRAM);
    let alice = Address::new([7u8; 32]);
    let mut create = CreateArtistProfile::locate(&program, alice).unwrap();
    let result = create_artist_profile(&mut create, "Alice".to_string(), "bio".to_string(), vec![]);
    assert_eq!(result, Ok(()));

    let mut tip = TipArtist {
        artist_profile: create.artist_profile,
        tips_vault: SystemAccount { key: Address::new([3u8; 32]), lamports: 0 },
        tipper: SystemAccount { key: Address::new([4u8; 32]), lamports: 2500 },
    };
    assert_eq!(tip_artist(&mut tip, 1000), Ok(()));
    assert_eq!(tip.tips_vault.lamports, 1000);

    let mut withdraw = WithdrawTips {
        artist_profile: tip.artist_profile,
        tips_vault: tip.tips_vault,
        artist: SystemAccount { key: alice, lamports: 0 },
        owner: alice,
    };
    assert_eq!(withdraw_tips(&mut withdraw, 1000, 0), Ok(()));
    assert_eq!(withdraw.tips_vault.lamports, 0);
    assert_eq!(withdraw.artist_profile.data.total_tips, 1000);
    assert_eq!(withdraw.artist.lamports, 1000);
}
