use vstd::prelude::*;
use vstd::string::StringExecFns;

verus! {

/// Why a handler refused to act. A refused handler leaves every record as it was.
#[derive(Clone, Copy, Debug, PartialEq, Eq, Structural)]
pub enum ArtistError {
    NameTooLong,
    BioTooLong,
    TooManyLinks,
    AlreadyFollowing,
    TitleTooLong,
    DescriptionTooLong,
    InvalidAmount,
    AlreadyLiked,
    CommentRequired,
    CommentTooLong,
    CollabAlreadyResolved,
    InsufficientFunds,
    NumericalOverflow,
    Unauthorized,
}

impl ArtistError {
    /// The text shown to a caller for each error.
    pub open spec fn spec_message(self) -> Seq<char> {
        match self {
            ArtistError::NameTooLong => "Name is too long"@,
            ArtistError::BioTooLong => "Bio is too long"@,
            ArtistError::TooManyLinks => "Too many links"@,
            ArtistError::AlreadyFollowing => "Already following this artist"@,
            ArtistError::TitleTooLong => "Title is too long"@,
            ArtistError::DescriptionTooLong => "Description is too long"@,
            ArtistError::InvalidAmount => "Invalid amount"@,
            ArtistError::AlreadyLiked => "Already liked this work"@,
            ArtistError::CommentRequired => "Comment is required"@,
            ArtistError::CommentTooLong => "Comment is too long"@,
            ArtistError::CollabAlreadyResolved => "Collaboration request already resolved"@,
            ArtistError::InsufficientFunds => "Insufficient funds"@,
            ArtistError::NumericalOverflow => "Numerical overflow"@,
            ArtistError::Unauthorized => "Caller is not the owner of this record"@,
        }
    }

    /// The text shown to a caller for this error.
    pub fn message(&self) -> (m: String)
        ensures
            m@ == self.spec_message(),
    {
        let text: &str = match self {
            ArtistError::NameTooLong => "Name is too long",
            ArtistError::BioTooLong => "Bio is too long",
            ArtistError::TooManyLinks => "Too many links",
            ArtistError::AlreadyFollowing => "Already following this artist",
            ArtistError::TitleTooLong => "Title is too long",
            ArtistError::DescriptionTooLong => "Description is too long",
            ArtistError::InvalidAmount => "Invalid amount",
            ArtistError::AlreadyLiked => "Already liked this work",
            ArtistError::CommentRequired => "Comment is required",
            ArtistError::CommentTooLong => "Comment is too long",
            ArtistError::CollabAlreadyResolved => "Collaboration request already resolved",
            ArtistError::InsufficientFunds => "Insufficient funds",
            ArtistError::NumericalOverflow => "Numerical overflow",
            ArtistError::Unauthorized => "Caller is not the owner of this record",
        };
        String::from_str(text)
    }
}

/// Whether a handler's result and the state it left behind are what a
/// transition prescribes: on success the prescribed state, on refusal the
/// prescribed error and the state as it was.
pub open spec fn outcome<V>(
    result: Result<(), ArtistError>,
    before: V,
    after: V,
    prescribed: Result<V, ArtistError>,
) -> bool {
    match prescribed {
        Ok(next) => result is Ok && after == next,
        Err(error) => result == Err::<(), ArtistError>(error) && after == before,
    }
}

} // verus!
