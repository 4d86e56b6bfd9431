use crate::address::Address;
use crate::derivation::{collab_request_address, collab_request_seeds, derived_address};
use crate::error::{outcome, ArtistError};
use crate::guard::authorize;
use crate::state::{
    Account, AccountView, ArtistProfile, ArtistProfileView, CollabRequest, CollabRequestView,
    CollabStatus,
};
use vstd::prelude::*;

verus! {

/// What `create_collab_request` works on: the record to fill, the profile
/// that is asked, the requester, and the bump seed of the record's address.
#[derive(Clone, Debug)]
pub struct CreateCollabRequest {
    pub collab_request: Account<CollabRequest>,
    pub artist_profile: Account<ArtistProfile>,
    pub requester: Address,
    pub bump: u8,
}

/// What a [`CreateCollabRequest`] holds, as mathematical values.
pub struct CreateCollabRequestView {
    pub collab_request: AccountView<CollabRequestView>,
    pub artist_profile: AccountView<ArtistProfileView>,
    pub requester: Address,
    pub bump: u8,
}

impl View for CreateCollabRequest {
    type V = CreateCollabRequestView;

    open spec fn view(&self) -> CreateCollabRequestView {
        CreateCollabRequestView {
            collab_request: self.collab_request@,
            artist_profile: self.artist_profile@,
            requester: self.requester,
            bump: self.bump,
        }
    }
}

impl CreateCollabRequest {
    /// The state before `requester` asks the profile: a blank record at `key`.
    pub open spec fn spec_new(
        key: Address,
        bump: u8,
        artist_profile: AccountView<ArtistProfileView>,
        requester: Address,
    ) -> CreateCollabRequestView {
        CreateCollabRequestView {
            collab_request: AccountView { key, data: CollabRequestView::blank() },
            artist_profile,
            requester,
            bump,
        }
    }

    /// A blank record at `key`, whose bump seed is `bump`, for the request
    /// of `requester` to the profile.
    pub fn new(key: Address, bump: u8, artist_profile: Account<ArtistProfile>, requester: Address) -> (ctx:
        CreateCollabRequest)
        ensures
            ctx@ == CreateCollabRequest::spec_new(key, bump, artist_profile@, requester),
    {
        CreateCollabRequest {
            collab_request: Account { key, data: CollabRequest::default() },
            artist_profile,
            requester,
            bump,
        }
    }

    /// A blank record at the address derived for the request of `requester`
    /// to the profile, or `None` where the derivation gives no address.
    pub fn locate(program_id: &Address, artist_profile: Account<ArtistProfile>, requester: Address) -> (found:
        Option<CreateCollabRequest>)
        ensures
            match derived_address(collab_request_seeds(artist_profile.key, requester), program_id@) {
                Some((address, bump)) => found matches Some(ctx) && ctx.collab_request.key@
                    == address && ctx@ == CreateCollabRequest::spec_new(
                    ctx.collab_request.key,
                    bump,
                    artist_profile@,
                    requester,
                ),
                None => found is None,
            },
    {
        match collab_request_address(program_id, &artist_profile.key, &requester) {
            Some((key, bump)) => Some(CreateCollabRequest::new(key, bump, artist_profile, requester)),
            None => None,
        }
    }
}

/// What `update_collab_status` works on: the request, the profile that was
/// asked, and the caller.
#[derive(Clone, Debug)]
pub struct UpdateCollabStatus {
    pub collab_request: Account<CollabRequest>,
    pub artist_profile: Account<ArtistProfile>,
    pub owner: Address,
}

/// What an [`UpdateCollabStatus`] holds, as mathematical values.
pub struct UpdateCollabStatusView {
    pub collab_request: AccountView<CollabRequestView>,
    pub artist_profile: AccountView<ArtistProfileView>,
    pub owner: Address,
}

impl View for UpdateCollabStatus {
    type V = UpdateCollabStatusView;

    open spec fn view(&self) -> UpdateCollabStatusView {
        UpdateCollabStatusView {
            collab_request: self.collab_request@,
            artist_profile: self.artist_profile@,
            owner: self.owner,
        }
    }
}

/// The state after a request is made: the record names the requester and
/// the profile, holds the description whatever its length, is pending, and
/// is stamped with the time.
pub open spec fn create_collab_request_spec(
    pre: CreateCollabRequestView,
    description: Seq<char>,
    now: int,
) -> CreateCollabRequestView {
    CreateCollabRequestView {
        collab_request: AccountView {
            key: pre.collab_request.key,
            data: CollabRequestView {
                requester: pre.requester,
                artist: pre.artist_profile.key,
                description,
                status: CollabStatus::Pending,
                timestamp: now,
                bump: pre.bump,
            },
        },
        artist_profile: pre.artist_profile,
        requester: pre.requester,
        bump: pre.bump,
    }
}

/// What answering a request does: for the owner of the profile, a pending
/// request takes the given status.
pub open spec fn update_collab_status_spec(pre: UpdateCollabStatusView, status: CollabStatus) -> Result<
    UpdateCollabStatusView,
    ArtistError,
> {
    let request = pre.collab_request.data;
    if pre.owner != pre.artist_profile.data.owner {
        Err(ArtistError::Unauthorized)
    } else if request.status != CollabStatus::Pending {
        Err(ArtistError::CollabAlreadyResolved)
    } else {
        Ok(
            UpdateCollabStatusView {
                collab_request: AccountView {
                    key: pre.collab_request.key,
                    data: CollabRequestView { status, ..request },
                },
                artist_profile: pre.artist_profile,
                owner: pre.owner,
            },
        )
    }
}

/// Asks the artist to work together, at the time `now`.
pub fn create_collab_request(ctx: &mut CreateCollabRequest, description: String, now: i64) -> (result:
    Result<(), ArtistError>)
    ensures
        result is Ok,
        final(ctx)@ == create_collab_request_spec(old(ctx)@, description@, now as int),
{
    ctx.collab_request.data.requester = ctx.requester;
    ctx.collab_request.data.artist = ctx.artist_profile.key;
    ctx.collab_request.data.description = description;
    ctx.collab_request.data.status = CollabStatus::Pending;
    ctx.collab_request.data.timestamp = now;
    ctx.collab_request.data.bump = ctx.bump;
    Ok(())
}

/// Answers a pending request with `status`.
pub fn update_collab_status(ctx: &mut UpdateCollabStatus, status: CollabStatus) -> (result: Result<
    (),
    ArtistError,
>)
    ensures
        outcome(result, old(ctx)@, final(ctx)@, update_collab_status_spec(old(ctx)@, status)),
        result is Err ==> *final(ctx) == *old(ctx),
{
    if let Err(error) = authorize(&ctx.owner, &ctx.artist_profile.data.owner) {
        return Err(error);
    }
    if ctx.collab_request.data.status != CollabStatus::Pending {
        return Err(ArtistError::CollabAlreadyResolved);
    }
    ctx.collab_request.data.status = status;
    Ok(())
}

/// A request that was answered with acceptance or rejection takes no further
/// answer: for the owner of the profile, every later answer is refused as
/// already resolved.
pub proof fn law_resolved_request_takes_no_answer(
    first: UpdateCollabStatusView,
    answer: CollabStatus,
    second: UpdateCollabStatusView,
    later_answer: CollabStatus,
)
    requires
        update_collab_status_spec(first, answer) is Ok,
        answer != CollabStatus::Pending,
        second.collab_request == update_collab_status_spec(first, answer)->Ok_0.collab_request,
        second.owner == second.artist_profile.data.owner,
    ensures
        update_collab_status_spec(second, later_answer) == Err::<UpdateCollabStatusView, ArtistError>(
            ArtistError::CollabAlreadyResolved,
        ),
{
}

/// An answer changes nothing of a request but its status, and only that of a
/// pending request.
pub proof fn law_answer_changes_the_status_only(pre: UpdateCollabStatusView, answer: CollabStatus)
    ensures
        update_collab_status_spec(pre, answer) matches Ok(post) ==> {
            &&& pre.collab_request.data.status == CollabStatus::Pending
            &&& post.collab_request.data == CollabRequestView {
                status: answer,
                ..pre.collab_request.data
            }
            &&& post.artist_profile == pre.artist_profile
        },
{
}

} // verus!
