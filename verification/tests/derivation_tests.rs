use artist_platform::derivation::{
    artist_profile_address, collab_request_address, follower_address, interaction_address,
    tips_vault_address, work_address,
};
use artist_platform::{
    Account, Address, ArtistProfile, CreateArtistProfile, CreateCollabRequest, CreateTipsVault,
    FollowArtist, InteractWithWork, PostWork, Work,
};

const PROGRAM: [u8; 32] = [
    57, 34, 155, 92, 118, 185, 176, 28, 86, 64, 192, 145, 175, 187, 66, 218, 144, 54, 222, 228,
    221, 227, 172, 118, 148, 173, 61, 105, 159, 202, 82, 90,
];

const PROFILE: [u8; 32] = [
    241, 144, 239, 118, 229, 152, 37, 46, 42, 154, 168, 93, 133, 162, 193, 197, 203, 72, 200, 118,
    180, 90, 245, 54, 68, 45, 227, 125, 88, 30, 211, 233,
];

const WORK_0: [u8; 32] = [
    219, 1, 59, 121, 159, 38, 82, 97, 135, 194, 114, 178, 143, 169, 210, 182, 62, 169, 62, 171,
    255, 89, 124, 29, 240, 70, 245, 186, 228, 71, 54, 163,
];

const WORK_1: [u8; 32] = [
    252, 131, 30, 204, 17, 220, 156, 134, 149, 100, 142, 218, 40, 197, 240, 120, 235, 205, 134,
    186, 100, 174, 134, 20, 25, 14, 105, 112, 247, 11, 177, 131,
];

fn program() -> Address {
    Address::new(PROGRAM)
}

fn owner() -> Address {
    Address::new([7u8; 32])
}

fn other() -> Address {
    Address::new([8u8; 32])
}

fn profile_account(work_count: u8) -> Account<ArtistProfile> {
    let mut data = ArtistProfile::default();
    data.owner = owner();
    data.work_count = work_count;
    Account { key: Address::new(PROFILE), data }
}

#[test]
fn artist_profile_address_is_the_derived_one() {
    let found = artist_profile_address(&program(), &owner());
    assert_eq!(found, Some((Address::new(PROFILE), 253)));
}

#[test]
fn tips_vault_address_is_the_derived_one() {
    let expected = [
        186, 150, 230, 103, 171, 235, 174, 114, 124, 66, 29, 50, 52, 205, 203, 195, 75, 8, 134,
        192, 199, 6, 126, 143, 41, 53, 101, 190, 17, 84, 57, 252,
    ];
    let found = tips_vault_address(&program(), &Address::new(PROFILE));
    assert_eq!(found, Some((Address::new(expected), 255)));
}

#[test]
fn work_address_is_the_derived_one_for_each_index() {
    let profile = Address::new(PROFILE);
    assert_eq!(work_address(&program(), &profile, 0), Some((Address::new(WORK_0), 255)));
    assert_eq!(work_address(&program(), &profile, 1), Some((Address::new(WORK_1), 253)));
}

#[test]
fn follower_address_is_the_derived_one() {
    let expected = [
        34, 183, 8, 27, 99, 35, 213, 60, 73, 91, 74, 149, 43, 136, 36, 99, 252, 61, 44, 234, 189,
        11, 240, 152, 254, 139, 154, 124, 113, 108, 159, 197,
    ];
    let found = follower_address(&program(), &Address::new(PROFILE), &other());
    assert_eq!(found, Some((Address::new(expected), 254)));
}

#[test]
fn interaction_address_is_the_derived_one() {
    let expected = [
        170, 184, 222, 22, 20, 243, 200, 39, 187, 194, 122, 255, 74, 49, 180, 140, 12, 158, 252,
        31, 146, 189, 18, 169, 143, 48, 72, 127, 245, 58, 88, 228,
    ];
    let found = interaction_address(&program(), &Address::new(WORK_0), &other());
    assert_eq!(found, Some((Address::new(expected), 254)));
}

#[test]
fn collab_request_address_is_the_derived_one() {
    let expected = [
        189, 202, 69, 136, 210, 89, 153, 42, 136, 67, 19, 218, 51, 99, 94, 3, 172, 96, 155, 248,
        210, 112, 182, 114, 47, 185, 206, 133, 215, 214, 102, 71,
    ];
    let found = collab_request_address(&program(), &Address::new(PROFILE), &other());
    assert_eq!(found, Some((Address::new(expected), 255)));
}

#[test]
fn derivation_gives_the_same_result_each_time() {
    let first = follower_address(&program(), &owner(), &other());
    let second = follower_address(&program(), &owner(), &other());
    assert!(first.is_some());
    assert_eq!(first, second);
}

#[test]
fn derivation_tells_the_order_of_the_pair_apart() {
    let one = follower_address(&program(), &owner(), &other());
    let two = follower_address(&program(), &other(), &owner());
    assert_ne!(one, two);
}

#[test]
fn derivation_tells_programs_apart() {
    let here = artist_profile_address(&program(), &owner());
    let there = artist_profile_address(&Address::new([1u8; 32]), &owner());
    assert_ne!(here, there);
}

#[test]
fn locate_create_artist_profile_gives_blank_record_at_derived_address() {
    let ctx = CreateArtistProfile::locate(&program(), owner()).unwrap();
    assert_eq!(ctx.artist_profile.key, Address::new(PROFILE));
    assert_eq!(ctx.bump, 253);
    assert_eq!(ctx.owner, owner());
    assert_eq!(ctx.artist_profile.data.name, "");
    assert_eq!(ctx.artist_profile.data.follower_count, 0);
    assert_eq!(ctx.artist_profile.data.owner, Address::zero());
}

#[test]
fn locate_post_work_uses_the_count_of_works_as_index() {
    let first = PostWork::locate(&program(), profile_account(0), owner()).unwrap();
    assert_eq!(first.work.key, Address::new(WORK_0));
    assert_eq!(first.bump, 255);
    let second = PostWork::locate(&program(), profile_account(1), owner()).unwrap();
    assert_eq!(second.work.key, Address::new(WORK_1));
    assert_eq!(second.bump, 253);
    assert_eq!(second.work.data.title, "");
    assert_eq!(second.artist_profile.data.work_count, 1);
}

#[test]
fn locate_follow_artist_matches_follower_address() {
    let expected = follower_address(&program(), &Address::new(PROFILE), &other()).unwrap();
    let ctx = FollowArtist::locate(&program(), profile_account(0), other()).unwrap();
    assert_eq!((ctx.follower_account.key, ctx.bump), expected);
    assert!(!ctx.follower_account.data.is_following);
    assert_eq!(ctx.follower, other());
}

#[test]
fn locate_interact_with_work_matches_interaction_address() {
    let work = Account { key: Address::new(WORK_0), data: Work::default() };
    let expected = interaction_address(&program(), &work.key, &other()).unwrap();
    let ctx = InteractWithWork::locate(&program(), work, other()).unwrap();
    assert_eq!((ctx.interaction.key, ctx.bump), expected);
    assert!(!ctx.interaction.data.has_liked);
    assert_eq!(ctx.interaction.data.comment, None);
}

#[test]
fn locate_create_collab_request_matches_collab_request_address() {
    let expected = collab_request_address(&program(), &Address::new(PROFILE), &other()).unwrap();
    let ctx = CreateCollabRequest::locate(&program(), profile_account(0), other()).unwrap();
    assert_eq!((ctx.collab_request.key, ctx.bump), expected);
    assert_eq!(ctx.requester, other());
}

#[test]
fn locate_create_tips_vault_gives_empty_vault_at_derived_address() {
    let expected = tips_vault_address(&program(), &Address::new(PROFILE)).unwrap();
    let ctx = CreateTipsVault::locate(&program(), profile_account(0), owner()).unwrap();
    assert_eq!(ctx.tips_vault.key, expected.0);
    assert_eq!(ctx.tips_vault.lamports, 0);
    assert_eq!(ctx.owner, owner());
    assert_eq!(ctx.artist_profile.key, Address::new(PROFILE));
}
