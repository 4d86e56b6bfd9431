use crate::state::{
    ArtistProfile, ArtistProfileView, CollabRequest, CollabRequestView, FollowerAccount,
    Interaction, InteractionView, Work, WorkView, ADDRESS_LEN, DISCRIMINATOR_LEN,
    LENGTH_PREFIX_LEN, MAX_COLLAB_DESCRIPTION_LEN, MAX_CONTENT_URL_LEN, MAX_LINKS, MAX_LINK_LEN,
};
use crate::text::{all_fit, byte_len};
use vstd::prelude::*;

verus! {

/// The kinds of record that the platform stores.
#[derive(Clone, Copy, Debug, PartialEq, Eq, Structural)]
pub enum RecordType {
    ArtistProfile,
    FollowerAccount,
    Work,
    Interaction,
    CollabRequest,
}

/// Bytes that the ledger reserves for a record of the given kind when it is
/// created.
pub fn max_size(record_type: RecordType) -> (size: usize)
    ensures
        size == match record_type {
            RecordType::ArtistProfile => ArtistProfile::LEN,
            RecordType::FollowerAccount => FollowerAccount::LEN,
            RecordType::Work => Work::LEN,
            RecordType::Interaction => Interaction::LEN,
            RecordType::CollabRequest => CollabRequest::LEN,
        },
{
    match record_type {
        RecordType::ArtistProfile => ArtistProfile::LEN,
        RecordType::FollowerAccount => FollowerAccount::LEN,
        RecordType::Work => Work::LEN,
        RecordType::Interaction => Interaction::LEN,
        RecordType::CollabRequest => CollabRequest::LEN,
    }
}

/// Bytes of a stored text: its length, then its bytes.
pub open spec fn stored_text_len(text: Seq<char>) -> nat {
    LENGTH_PREFIX_LEN as nat + byte_len(text)
}

/// Bytes of the texts of a stored list, one after the other.
pub open spec fn stored_texts_len(texts: Seq<Seq<char>>) -> nat
    decreases texts.len(),
{
    if texts.len() == 0 {
        0
    } else {
        stored_texts_len(texts.drop_last()) + stored_text_len(texts.last())
    }
}

impl ArtistProfileView {
    /// Bytes that the profile takes when stored: the discriminator, then
    /// each field in turn, the list of links behind its length.
    pub open spec fn stored_len(self) -> nat {
        DISCRIMINATOR_LEN as nat + ADDRESS_LEN as nat + stored_text_len(self.name)
            + stored_text_len(self.bio) + LENGTH_PREFIX_LEN as nat + stored_texts_len(self.links)
            + 8 + 8 + 1 + 1
    }
}

/// Bytes that a follower record takes when stored: the discriminator, two
/// addresses, the flag and the bump seed.
pub open spec fn follower_account_stored_len() -> nat {
    DISCRIMINATOR_LEN as nat + ADDRESS_LEN as nat + ADDRESS_LEN as nat + 1 + 1
}

impl WorkView {
    /// Bytes that the work takes when stored.
    pub open spec fn stored_len(self) -> nat {
        DISCRIMINATOR_LEN as nat + ADDRESS_LEN as nat + stored_text_len(self.title)
            + stored_text_len(self.description) + stored_text_len(self.content_url) + 8 + 8 + 8
            + 1
    }
}

impl InteractionView {
    /// Bytes that the interaction takes when stored: a comment takes one
    /// byte that says whether it is there, and then its text if it is.
    pub open spec fn stored_len(self) -> nat {
        DISCRIMINATOR_LEN as nat + ADDRESS_LEN as nat + ADDRESS_LEN as nat + 1 + 1 + match self.comment {
            Some(text) => stored_text_len(text),
            None => 0,
        } + 8 + 1
    }
}

impl CollabRequestView {
    /// Bytes that the request takes when stored.
    pub open spec fn stored_len(self) -> nat {
        DISCRIMINATOR_LEN as nat + ADDRESS_LEN as nat + ADDRESS_LEN as nat + stored_text_len(
            self.description,
        ) + 1 + 8 + 1
    }
}

/// Texts that each take at most `limit` bytes take together at most as much
/// as that many texts at the limit.
pub proof fn lemma_stored_texts_len_bound(texts: Seq<Seq<char>>, limit: nat)
    requires
        all_fit(texts, limit),
    ensures
        stored_texts_len(texts) <= texts.len() * (LENGTH_PREFIX_LEN as nat + limit),
    decreases texts.len(),
{
    if texts.len() > 0 {
        let earlier = texts.drop_last();
        assert forall|i: int| 0 <= i < earlier.len() implies byte_len(#[trigger] earlier[i])
            <= limit by {
            assert(earlier[i] == texts[i]);
        }
        lemma_stored_texts_len_bound(earlier, limit);
        assert(byte_len(texts[texts.len() - 1]) <= limit);
        assert(texts.len() * (LENGTH_PREFIX_LEN as nat + limit) == earlier.len() * (
        LENGTH_PREFIX_LEN as nat + limit) + (LENGTH_PREFIX_LEN as nat + limit))
            by (nonlinear_arith)
            requires
                texts.len() == earlier.len() + 1,
        ;
    }
}

/// A profile whose texts are within their limits fits the room reserved for
/// it, with the 200 bytes to spare.
pub proof fn law_profile_fits_its_room(profile: ArtistProfileView)
    requires
        profile.within_bounds(),
    ensures
        profile.stored_len() + 200 <= ArtistProfile::LEN,
{
    lemma_stored_texts_len_bound(profile.links, MAX_LINK_LEN as nat);
    assert(profile.links.len() * (LENGTH_PREFIX_LEN as nat + MAX_LINK_LEN as nat) <= MAX_LINKS as nat
        * (LENGTH_PREFIX_LEN as nat + MAX_LINK_LEN as nat)) by (nonlinear_arith)
        requires
            profile.links.len() <= MAX_LINKS as nat,
    ;
}

/// A follower record fits the room reserved for it, with the 64 bytes to
/// spare.
pub proof fn law_follower_account_fits_its_room()
    ensures
        follower_account_stored_len() + 64 == FollowerAccount::LEN,
{
}

/// A work whose title and description are within their limits, and whose
/// content URL takes no more than the 200 bytes kept for it, fits the room
/// reserved for it, with the 200 bytes to spare.
pub proof fn law_work_fits_its_room(work: WorkView)
    requires
        work.within_bounds(),
        byte_len(work.content_url) <= MAX_CONTENT_URL_LEN,
    ensures
        work.stored_len() + 200 <= Work::LEN,
{
}

/// An interaction whose comment is within its limit fits the room reserved
/// for it, with the 100 bytes to spare.
pub proof fn law_interaction_fits_its_room(interaction: InteractionView)
    requires
        interaction.within_bounds(),
    ensures
        interaction.stored_len() + 100 <= Interaction::LEN,
{
}

/// A request whose description takes no more than the 500 bytes kept for it
/// fits the room reserved for it, with the 100 bytes to spare.
pub proof fn law_collab_request_fits_its_room(request: CollabRequestView)
    requires
        byte_len(request.description) <= MAX_COLLAB_DESCRIPTION_LEN,
    ensures
        request.stored_len() + 100 <= CollabRequest::LEN,
{
}

} // verus!
