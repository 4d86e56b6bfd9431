use artist_platform::state::{
    MAX_BIO_LEN, MAX_COMMENT_LEN, MAX_DESCRIPTION_LEN, MAX_LINKS, MAX_LINK_LEN, MAX_NAME_LEN,
    MAX_TITLE_LEN,
};
use artist_platform::text::{each_fits, fits};
use artist_platform::{
    max_size, Address, ArtistError, ArtistProfile, CollabRequest, CollabStatus, FollowerAccount,
    Interaction, RecordType, Work,
};

#[test]
fn reserved_sizes_are_the_sums_of_their_parts() {
    assert_eq!(ArtistProfile::LEN, 1340);
    assert_eq!(FollowerAccount::LEN, 138);
    assert_eq!(Work::LEN, 1577);
    assert_eq!(Interaction::LEN, 687);
    assert_eq!(CollabRequest::LEN, 686);
}

#[test]
fn max_size_is_constant_per_record_type() {
    assert_eq!(max_size(RecordType::ArtistProfile), 1340);
    assert_eq!(max_size(RecordType::FollowerAccount), 138);
    assert_eq!(max_size(RecordType::Work), 1577);
    assert_eq!(max_size(RecordType::Interaction), 687);
    assert_eq!(max_size(RecordType::CollabRequest), 686);
    assert_eq!(max_size(RecordType::Work), max_size(RecordType::Work));
}

#[test]
fn limits_are_those_of_the_records() {
    assert_eq!(MAX_NAME_LEN, 50);
    assert_eq!(MAX_BIO_LEN, 500);
    assert_eq!(MAX_LINKS, 5);
    assert_eq!(MAX_LINK_LEN, 100);
    assert_eq!(MAX_TITLE_LEN, 100);
    assert_eq!(MAX_DESCRIPTION_LEN, 1000);
    assert_eq!(MAX_COMMENT_LEN, 500);
}

#[test]
fn fits_compares_the_byte_length() {
    assert!(fits(&String::new(), 0));
    assert!(fits(&"abc".to_string(), 3));
    assert!(!fits(&"abcd".to_string(), 3));
    assert!(!fits(&"\u{20ac}".to_string(), 2));
    assert!(fits(&"\u{20ac}".to_string(), 3));
}

#[test]
fn each_fits_needs_every_text_to_fit() {
    assert!(each_fits(&vec![], 0));
    assert!(each_fits(&vec!["ab".to_string(), "abc".to_string()], 3));
    assert!(!each_fits(&vec!["ab".to_string(), "abcd".to_string()], 3));
    assert!(!each_fits(&vec!["abcd".to_string(), "ab".to_string()], 3));
}

#[test]
fn blank_records_hold_nothing() {
    let profile = ArtistProfile::default();
    assert_eq!(profile.owner, Address::zero());
    assert_eq!(profile.name, "");
    assert_eq!(profile.bio, "");
    assert!(profile.links.is_empty());
    assert_eq!((profile.follower_count, profile.total_tips), (0, 0));
    assert_eq!((profile.work_count, profile.bump), (0, 0));
    let follower = FollowerAccount::default();
    assert!(!follower.is_following);
    assert_eq!(follower.follower, Address::zero());
    let work = Work::default();
    assert_eq!((work.likes, work.comment_count, work.timestamp), (0, 0, 0));
    let interaction = Interaction::default();
    assert!(!interaction.has_liked);
    assert_eq!(interaction.comment, None);
    let request = CollabRequest::default();
    assert_eq!(request.status, CollabStatus::Pending);
    assert_eq!(request.description, "");
    assert_eq!(Address::zero(), Address::new([0u8; 32]));
}

#[test]
fn addresses_are_equal_when_all_bytes_are() {
    let mut bytes = [5u8; 32];
    assert_eq!(Address::new(bytes), Address::new([5u8; 32]));
    bytes[0] = 4;
    assert_ne!(Address::new(bytes), Address::new([5u8; 32]));
    let mut bytes = [5u8; 32];
    bytes[31] = 4;
    assert_ne!(Address::new(bytes), Address::new([5u8; 32]));
    assert_eq!(Address::new(bytes).bytes[31], 4);
}

#[test]
fn every_error_has_its_message() {
    assert_eq!(ArtistError::NameTooLong.message(), "Name is too long");
    assert_eq!(ArtistError::BioTooLong.message(), "Bio is too long");
    assert_eq!(ArtistError::TooManyLinks.message(), "Too many links");
    assert_eq!(ArtistError::AlreadyFollowing.message(), "Already following this artist");
    assert_eq!(ArtistError::TitleTooLong.message(), "Title is too long");
    assert_eq!(ArtistError::DescriptionTooLong.message(), "Description is too long");
    assert_eq!(ArtistError::InvalidAmount.message(), "Invalid amount");
    assert_eq!(ArtistError::AlreadyLiked.message(), "Already liked this work");
    assert_eq!(ArtistError::CommentRequired.message(), "Comment is required");
    assert_eq!(ArtistError::CommentTooLong.message(), "Comment is too long");
    assert_eq!(
        ArtistError::CollabAlreadyResolved.message(),
        "Collaboration request already resolved"
    );
    assert_eq!(ArtistError::InsufficientFunds.message(), "Insufficient funds");
    assert_eq!(ArtistError::NumericalOverflow.message(), "Numerical overflow");
    assert_eq!(ArtistError::Unauthorized.message(), "Caller is not the owner of this record");
}
