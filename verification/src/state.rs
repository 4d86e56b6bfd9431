use crate::address::Address;
use crate::text::{all_fit, byte_len};
use vstd::prelude::*;

verus! {

/// Longest name of a profile, in bytes.
pub const MAX_NAME_LEN: usize = 50;

/// Longest bio of a profile, in bytes.
pub const MAX_BIO_LEN: usize = 500;

/// Most links that a profile holds.
pub const MAX_LINKS: usize = 5;

/// Longest link of a profile, in bytes.
pub const MAX_LINK_LEN: usize = 100;

/// Longest title of a work, in bytes.
pub const MAX_TITLE_LEN: usize = 100;

/// Longest description of a work, in bytes.
pub const MAX_DESCRIPTION_LEN: usize = 1000;

/// Room kept for the content URL of a work, in bytes.
pub const MAX_CONTENT_URL_LEN: usize = 200;

/// Longest comment on a work, in bytes.
pub const MAX_COMMENT_LEN: usize = 500;

/// Room kept for the description of a collaboration request, in bytes.
pub const MAX_COLLAB_DESCRIPTION_LEN: usize = 500;

/// Bytes in front of every stored record that tell its type.
pub const DISCRIMINATOR_LEN: usize = 8;

/// Bytes of a stored address.
pub const ADDRESS_LEN: usize = 32;

/// Bytes of the length that precedes a stored text or list.
pub const LENGTH_PREFIX_LEN: usize = 4;

/// A record together with the address at which the ledger keeps it.
#[derive(Clone, Debug)]
pub struct Account<T> {
    pub key: Address,
    pub data: T,
}

/// What an [`Account`] holds, as mathematical values.
pub struct AccountView<V> {
    pub key: Address,
    pub data: V,
}

impl<T: View> View for Account<T> {
    type V = AccountView<T::V>;

    open spec fn view(&self) -> AccountView<T::V> {
        AccountView { key: self.key, data: self.data@ }
    }
}

/// An artist's public profile with its running counters.
#[derive(Clone, Debug)]
pub struct ArtistProfile {
    pub owner: Address,
    pub name: String,
    pub bio: String,
    pub links: Vec<String>,
    pub follower_count: u64,
    pub total_tips: u64,
    pub work_count: u8,
    pub bump: u8,
}

/// What an [`ArtistProfile`] holds, as mathematical values.
#[verifier::ext_equal]
pub struct ArtistProfileView {
    pub owner: Address,
    pub name: Seq<char>,
    pub bio: Seq<char>,
    pub links: Seq<Seq<char>>,
    pub follower_count: nat,
    pub total_tips: nat,
    pub work_count: nat,
    pub bump: u8,
}

impl View for ArtistProfile {
    type V = ArtistProfileView;

    open spec fn view(&self) -> ArtistProfileView {
        ArtistProfileView {
            owner: self.owner,
            name: self.name@,
            bio: self.bio@,
            links: self.links.deep_view(),
            follower_count: self.follower_count as nat,
            total_tips: self.total_tips as nat,
            work_count: self.work_count as nat,
            bump: self.bump,
        }
    }
}

impl ArtistProfileView {
    /// The texts of the profile respect their limits.
    pub open spec fn within_bounds(self) -> bool {
        &&& byte_len(self.name) <= MAX_NAME_LEN
        &&& byte_len(self.bio) <= MAX_BIO_LEN
        &&& self.links.len() <= MAX_LINKS
        &&& all_fit(self.links, MAX_LINK_LEN as nat)
    }

    /// A record that nothing was written to yet.
    pub open spec fn blank() -> ArtistProfileView {
        ArtistProfileView {
            owner: Address::spec_zero(),
            name: Seq::empty(),
            bio: Seq::empty(),
            links: Seq::empty(),
            follower_count: 0,
            total_tips: 0,
            work_count: 0,
            bump: 0,
        }
    }
}

impl ArtistProfile {
    /// Bytes reserved for a stored profile: every text and the list of links
    /// at their limits, and 200 bytes to spare.
    pub const LEN: usize = DISCRIMINATOR_LEN + ADDRESS_LEN + (LENGTH_PREFIX_LEN + MAX_NAME_LEN) + (
    LENGTH_PREFIX_LEN + MAX_BIO_LEN) + LENGTH_PREFIX_LEN + (LENGTH_PREFIX_LEN + MAX_LINK_LEN)
        * MAX_LINKS + 8 + 8 + 1 + 1 + 200;
}

impl Default for ArtistProfile {
    fn default() -> (record: ArtistProfile)
        ensures
            record@ == ArtistProfileView::blank(),
    {
        let record = ArtistProfile {
            owner: Address::zero(),
            name: String::new(),
            bio: String::new(),
            links: Vec::new(),
            follower_count: 0,
            total_tips: 0,
            work_count: 0,
            bump: 0,
        };
        assert(record.links.deep_view() =~= Seq::empty());
        record
    }
}

/// That a follower follows an artist.
#[derive(Clone, Copy, Debug)]
pub struct FollowerAccount {
    pub follower: Address,
    pub artist: Address,
    pub is_following: bool,
    pub bump: u8,
}

impl View for FollowerAccount {
    type V = FollowerAccount;

    open spec fn view(&self) -> FollowerAccount {
        *self
    }
}

impl FollowerAccount {
    /// Bytes reserved for a stored follower record, 64 of them to spare.
    pub const LEN: usize = DISCRIMINATOR_LEN + ADDRESS_LEN + ADDRESS_LEN + 1 + 1 + 64;

    /// A record that nothing was written to yet.
    pub open spec fn blank() -> FollowerAccount {
        FollowerAccount {
            follower: Address::spec_zero(),
            artist: Address::spec_zero(),
            is_following: false,
            bump: 0,
        }
    }
}

impl Default for FollowerAccount {
    fn default() -> (record: FollowerAccount)
        ensures
            record == FollowerAccount::blank(),
    {
        FollowerAccount {
            follower: Address::zero(),
            artist: Address::zero(),
            is_following: false,
            bump: 0,
        }
    }
}

/// A work that an artist posted, with the counters of what users did with it.
#[derive(Clone, Debug)]
pub struct Work {
    pub artist: Address,
    pub title: String,
    pub description: String,
    pub content_url: String,
    pub likes: u64,
    pub comment_count: u64,
    pub timestamp: i64,
    pub bump: u8,
}

/// What a [`Work`] holds, as mathematical values.
#[verifier::ext_equal]
pub struct WorkView {
    pub artist: Address,
    pub title: Seq<char>,
    pub description: Seq<char>,
    pub content_url: Seq<char>,
    pub likes: nat,
    pub comment_count: nat,
    pub timestamp: int,
    pub bump: u8,
}

impl View for Work {
    type V = WorkView;

    open spec fn view(&self) -> WorkView {
        WorkView {
            artist: self.artist,
            title: self.title@,
            description: self.description@,
            content_url: self.content_url@,
            likes: self.likes as nat,
            comment_count: self.comment_count as nat,
            timestamp: self.timestamp as int,
            bump: self.bump,
        }
    }
}

impl WorkView {
    /// The title and the description respect their limits.
    pub open spec fn within_bounds(self) -> bool {
        &&& byte_len(self.title) <= MAX_TITLE_LEN
        &&& byte_len(self.description) <= MAX_DESCRIPTION_LEN
    }

    /// A record that nothing was written to yet.
    pub open spec fn blank() -> WorkView {
        WorkView {
            artist: Address::spec_zero(),
            title: Seq::empty(),
            description: Seq::empty(),
            content_url: Seq::empty(),
            likes: 0,
            comment_count: 0,
            timestamp: 0,
            bump: 0,
        }
    }
}

impl Work {
    /// Bytes reserved for a stored work: its three texts at their limits,
    /// and 200 bytes to spare.
    pub const LEN: usize = DISCRIMINATOR_LEN + ADDRESS_LEN + (LENGTH_PREFIX_LEN + MAX_TITLE_LEN) + (
    LENGTH_PREFIX_LEN + MAX_DESCRIPTION_LEN) + (LENGTH_PREFIX_LEN + MAX_CONTENT_URL_LEN) + 8 + 8
        + 8 + 1 + 200;
}

impl Default for Work {
    fn default() -> (record: Work)
        ensures
            record@ == WorkView::blank(),
    {
        Work {
            artist: Address::zero(),
            title: String::new(),
            description: String::new(),
            content_url: String::new(),
            likes: 0,
            comment_count: 0,
            timestamp: 0,
            bump: 0,
        }
    }
}

/// What one user did with one work.
#[derive(Clone, Debug)]
pub struct Interaction {
    pub user: Address,
    pub work: Address,
    pub has_liked: bool,
    pub comment: Option<String>,
    pub timestamp: i64,
    pub bump: u8,
}

/// What an [`Interaction`] holds, as mathematical values.
#[verifier::ext_equal]
pub struct InteractionView {
    pub user: Address,
    pub work: Address,
    pub has_liked: bool,
    pub comment: Option<Seq<char>>,
    pub timestamp: int,
    pub bump: u8,
}

impl View for Interaction {
    type V = InteractionView;

    open spec fn view(&self) -> InteractionView {
        InteractionView {
            user: self.user,
            work: self.work,
            has_liked: self.has_liked,
            comment: match self.comment {
                Some(text) => Some(text@),
                None => None,
            },
            timestamp: self.timestamp as int,
            bump: self.bump,
        }
    }
}

impl InteractionView {
    /// The comment, if there is one, respects its limit.
    pub open spec fn within_bounds(self) -> bool {
        self.comment matches Some(text) ==> byte_len(text) <= MAX_COMMENT_LEN
    }

    /// A record that nothing was written to yet.
    pub open spec fn blank() -> InteractionView {
        InteractionView {
            user: Address::spec_zero(),
            work: Address::spec_zero(),
            has_liked: false,
            comment: None,
            timestamp: 0,
            bump: 0,
        }
    }
}

impl Interaction {
    /// Bytes reserved for a stored interaction: a comment at its limit,
    /// and 100 bytes to spare.
    pub const LEN: usize = DISCRIMINATOR_LEN + ADDRESS_LEN + ADDRESS_LEN + 1 + (1
        + LENGTH_PREFIX_LEN + MAX_COMMENT_LEN) + 8 + 1 + 100;
}

impl Default for Interaction {
    fn default() -> (record: Interaction)
        ensures
            record@ == InteractionView::blank(),
    {
        Interaction {
            user: Address::zero(),
            work: Address::zero(),
            has_liked: false,
            comment: None,
            timestamp: 0,
            bump: 0,
        }
    }
}

/// Where a collaboration request stands.
#[derive(Clone, Copy, Debug, PartialEq, Eq, Structural)]
pub enum CollabStatus {
    Pending,
    Accepted,
    Rejected,
}

/// What a user does with a work.
#[derive(Clone, Copy, Debug, PartialEq, Eq, Structural)]
pub enum InteractionType {
    Like,
    Comment,
}

/// A request to an artist to work together.
#[derive(Clone, Debug)]
pub struct CollabRequest {
    pub requester: Address,
    pub artist: Address,
    pub description: String,
    pub status: CollabStatus,
    pub timestamp: i64,
    pub bump: u8,
}

/// What a [`CollabRequest`] holds, as mathematical values.
#[verifier::ext_equal]
pub struct CollabRequestView {
    pub requester: Address,
    pub artist: Address,
    pub description: Seq<char>,
    pub status: CollabStatus,
    pub timestamp: int,
    pub bump: u8,
}

impl View for CollabRequest {
    type V = CollabRequestView;

    open spec fn view(&self) -> CollabRequestView {
        CollabRequestView {
            requester: self.requester,
            artist: self.artist,
            description: self.description@,
            status: self.status,
            timestamp: self.timestamp as int,
            bump: self.bump,
        }
    }
}

impl CollabRequestView {
    /// A record that nothing was written to yet.
    pub open spec fn blank() -> CollabRequestView {
        CollabRequestView {
            requester: Address::spec_zero(),
            artist: Address::spec_zero(),
            description: Seq::empty(),
            status: CollabStatus::Pending,
            timestamp: 0,
            bump: 0,
        }
    }
}

impl CollabRequest {
    /// Bytes reserved for a stored request: room for a description of 500
    /// bytes, and 100 bytes to spare.
    pub const LEN: usize = DISCRIMINATOR_LEN + ADDRESS_LEN + ADDRESS_LEN + (LENGTH_PREFIX_LEN
        + MAX_COLLAB_DESCRIPTION_LEN) + 1 + 8 + 1 + 100;
}

impl Default for CollabRequest {
    fn default() -> (record: CollabRequest)
        ensures
            record@ == CollabRequestView::blank(),
    {
        CollabRequest {
            requester: Address::zero(),
            artist: Address::zero(),
            description: String::new(),
            status: CollabStatus::Pending,
            timestamp: 0,
            bump: 0,
        }
    }
}

} // verus!
