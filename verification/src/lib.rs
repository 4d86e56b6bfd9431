//! Records, authorization and balance rules of an artist platform that lives
//! on a ledger: profiles, followers, posted works, tips, interactions and
//! collaboration requests, each as a state transition with a proved contract.
//!
//! A handler takes the records it works on as plain values, checks the
//! caller and the input, and either applies the whole transition or refuses
//! and leaves everything as it was. The ledger itself, its clock and its
//! reserve rule stay outside: a handler is handed the time and the reserve.

pub mod address;
pub mod collab;
pub mod derivation;
pub mod error;
pub mod follow;
pub mod guard;
pub mod layout;
pub mod ledger;
pub mod profile;
pub mod state;
pub mod text;
pub mod tips;
pub mod work;

pub use address::Address;
pub use collab::{
    create_collab_request, update_collab_status, CreateCollabRequest, UpdateCollabStatus,
};
pub use error::ArtistError;
pub use follow::{follow_artist, FollowArtist};
pub use guard::authorize;
pub use layout::{max_size, RecordType};
pub use ledger::{balance_of, transfer, SystemAccount};
pub use profile::{
    close_artist_profile, create_artist_profile, update_artist_profile, CloseArtistProfile,
    CreateArtistProfile, UpdateArtistProfile,
};
pub use state::{
    Account, ArtistProfile, CollabRequest, CollabStatus, FollowerAccount, Interaction,
    InteractionType, Work,
};
pub use tips::{
    create_tips_vault, tip_artist, withdraw_tips, CreateTipsVault, TipArtist, WithdrawTips,
};
pub use work::{interact_with_work, post_work, InteractWithWork, PostWork};
