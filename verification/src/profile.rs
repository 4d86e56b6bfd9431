use crate::address::Address;
use crate::derivation::{artist_profile_address, artist_profile_seeds, derived_address};
use crate::error::{outcome, ArtistError};
use crate::guard::authorize;
use crate::ledger::{transfer, transfer_spec, SystemAccount, SystemAccountView};
use crate::state::{
    Account, AccountView, ArtistProfile, ArtistProfileView, MAX_BIO_LEN, MAX_LINKS, MAX_LINK_LEN,
    MAX_NAME_LEN,
};
use crate::text::{all_fit, byte_len, each_fits, fits};
use vstd::prelude::*;

verus! {

/// What `create_artist_profile` works on: the record to fill, the wallet that
/// will own it, and the bump seed of the record's address.
#[derive(Clone, Debug)]
pub struct CreateArtistProfile {
    pub artist_profile: Account<ArtistProfile>,
    pub owner: Address,
    pub bump: u8,
}

/// What a [`CreateArtistProfile`] holds, as mathematical values.
pub struct CreateArtistProfileView {
    pub artist_profile: AccountView<ArtistProfileView>,
    pub owner: Address,
    pub bump: u8,
}

impl View for CreateArtistProfile {
    type V = CreateArtistProfileView;

    open spec fn view(&self) -> CreateArtistProfileView {
        CreateArtistProfileView {
            artist_profile: self.artist_profile@,
            owner: self.owner,
            bump: self.bump,
        }
    }
}

impl CreateArtistProfile {
    /// The state before a profile is created at `key`: a blank record there.
    pub open spec fn spec_new(key: Address, bump: u8, owner: Address) -> CreateArtistProfileView {
        CreateArtistProfileView {
            artist_profile: AccountView { key, data: ArtistProfileView::blank() },
            owner,
            bump,
        }
    }

    /// A blank record at `key`, whose bump seed is `bump`, for `owner` to fill.
    pub fn new(key: Address, bump: u8, owner: Address) -> (ctx: CreateArtistProfile)
        ensures
            ctx@ == CreateArtistProfile::spec_new(key, bump, owner),
    {
        CreateArtistProfile {
            artist_profile: Account { key, data: ArtistProfile::default() },
            owner,
            bump,
        }
    }

    /// A blank record at the address derived for the profile of `owner`, or
    /// `None` where the derivation gives no address.
    pub fn locate(program_id: &Address, owner: Address) -> (found: Option<CreateArtistProfile>)
        ensures
            match derived_address(artist_profile_seeds(owner), program_id@) {
                Some((address, bump)) => found matches Some(ctx) && ctx.artist_profile.key@
                    == address && ctx@ == CreateArtistProfile::spec_new(
                    ctx.artist_profile.key,
                    bump,
                    owner,
                ),
                None => found is None,
            },
    {
        match artist_profile_address(program_id, &owner) {
            Some((key, bump)) => Some(CreateArtistProfile::new(key, bump, owner)),
            None => None,
        }
    }
}

/// What `update_artist_profile` works on: the profile and the caller.
#[derive(Clone, Debug)]
pub struct UpdateArtistProfile {
    pub artist_profile: Account<ArtistProfile>,
    pub owner: Address,
}

/// What an [`UpdateArtistProfile`] holds, as mathematical values.
pub struct UpdateArtistProfileView {
    pub artist_profile: AccountView<ArtistProfileView>,
    pub owner: Address,
}

impl View for UpdateArtistProfile {
    type V = UpdateArtistProfileView;

    open spec fn view(&self) -> UpdateArtistProfileView {
        UpdateArtistProfileView { artist_profile: self.artist_profile@, owner: self.owner }
    }
}

/// What `close_artist_profile` works on: the profile, its vault, the wallet
/// that receives what the vault holds, which must be the owner's, and the
/// caller.
#[derive(Clone, Debug)]
pub struct CloseArtistProfile {
    pub artist_profile: Account<ArtistProfile>,
    pub tips_vault: SystemAccount,
    pub artist: SystemAccount,
    pub owner: Address,
}

/// What a [`CloseArtistProfile`] holds, as mathematical values.
pub struct CloseArtistProfileView {
    pub artist_profile: AccountView<ArtistProfileView>,
    pub tips_vault: SystemAccountView,
    pub artist: SystemAccountView,
    pub owner: Address,
}

impl View for CloseArtistProfile {
    type V = CloseArtistProfileView;

    open spec fn view(&self) -> CloseArtistProfileView {
        CloseArtistProfileView {
            artist_profile: self.artist_profile@,
            tips_vault: self.tips_vault@,
            artist: self.artist@,
            owner: self.owner,
        }
    }
}

/// Whether a list of links is one that a profile may hold: at most five
/// links, each of at most 100 bytes.
pub open spec fn links_allowed(links: Seq<Seq<char>>) -> bool {
    links.len() <= MAX_LINKS && all_fit(links, MAX_LINK_LEN as nat)
}

/// The first limit that new texts of a profile break, in the order name, bio,
/// links. A text that is not given breaks none. A list with a link over its
/// limit is refused as a list of too many links is.
pub open spec fn profile_text_error(
    name: Option<Seq<char>>,
    bio: Option<Seq<char>>,
    links: Option<Seq<Seq<char>>>,
) -> Option<ArtistError> {
    if name matches Some(text) && byte_len(text) > MAX_NAME_LEN {
        Some(ArtistError::NameTooLong)
    } else if bio matches Some(text) && byte_len(text) > MAX_BIO_LEN {
        Some(ArtistError::BioTooLong)
    } else if links matches Some(list) && !links_allowed(list) {
        Some(ArtistError::TooManyLinks)
    } else {
        None
    }
}

/// What creating a profile does: texts within their limits give a profile
/// owned by the caller, with the bump seed of its address and every counter
/// at zero.
pub open spec fn create_artist_profile_spec(
    pre: CreateArtistProfileView,
    name: Seq<char>,
    bio: Seq<char>,
    links: Seq<Seq<char>>,
) -> Result<CreateArtistProfileView, ArtistError> {
    match profile_text_error(Some(name), Some(bio), Some(links)) {
        Some(error) => Err(error),
        None => Ok(
            CreateArtistProfileView {
                artist_profile: AccountView {
                    key: pre.artist_profile.key,
                    data: ArtistProfileView {
                        owner: pre.owner,
                        name,
                        bio,
                        links,
                        follower_count: 0,
                        total_tips: 0,
                        work_count: 0,
                        bump: pre.bump,
                    },
                },
                owner: pre.owner,
                bump: pre.bump,
            },
        ),
    }
}

/// What updating a profile does: for the owner, and with the given texts
/// within their limits, each given text replaces the one in the profile.
pub open spec fn update_artist_profile_spec(
    pre: UpdateArtistProfileView,
    name: Option<Seq<char>>,
    bio: Option<Seq<char>>,
    links: Option<Seq<Seq<char>>>,
) -> Result<UpdateArtistProfileView, ArtistError> {
    let profile = pre.artist_profile.data;
    if pre.owner != profile.owner {
        Err(ArtistError::Unauthorized)
    } else {
        match profile_text_error(name, bio, links) {
            Some(error) => Err(error),
            None => Ok(
                UpdateArtistProfileView {
                    artist_profile: AccountView {
                        key: pre.artist_profile.key,
                        data: ArtistProfileView {
                            name: match name {
                                Some(text) => text,
                                None => profile.name,
                            },
                            bio: match bio {
                                Some(text) => text,
                                None => profile.bio,
                            },
                            links: match links {
                                Some(list) => list,
                                None => profile.links,
                            },
                            ..profile
                        },
                    },
                    owner: pre.owner,
                },
            ),
        }
    }
}

/// What closing a profile does: for the owner, and into the owner's own
/// wallet, all that the vault holds moves to that wallet. A wallet under
/// another key is refused as a caller who is not the owner is.
pub open spec fn close_artist_profile_spec(pre: CloseArtistProfileView) -> Result<
    CloseArtistProfileView,
    ArtistError,
> {
    if pre.owner != pre.artist_profile.data.owner {
        Err(ArtistError::Unauthorized)
    } else if pre.artist.key != pre.artist_profile.data.owner {
        Err(ArtistError::Unauthorized)
    } else {
        match transfer_spec(pre.tips_vault, pre.artist, pre.tips_vault.lamports) {
            Err(error) => Err(error),
            Ok((tips_vault, artist)) => Ok(
                CloseArtistProfileView {
                    artist_profile: pre.artist_profile,
                    tips_vault,
                    artist,
                    owner: pre.owner,
                },
            ),
        }
    }
}

/// Decides [`links_allowed`].
fn check_links(links: &Vec<String>) -> (ok: bool)
    ensures
        ok == links_allowed(links.deep_view()),
{
    links.len() <= MAX_LINKS && each_fits(links, MAX_LINK_LEN)
}

/// Fills a new profile for its owner.
pub fn create_artist_profile(
    ctx: &mut CreateArtistProfile,
    name: String,
    bio: String,
    links: Vec<String>,
) -> (result: Result<(), ArtistError>)
    ensures
        outcome(
            result,
            old(ctx)@,
            final(ctx)@,
            create_artist_profile_spec(old(ctx)@, name@, bio@, links.deep_view()),
        ),
        result is Err ==> *final(ctx) == *old(ctx),
{
    if !fits(&name, MAX_NAME_LEN) {
        return Err(ArtistError::NameTooLong);
    }
    if !fits(&bio, MAX_BIO_LEN) {
        return Err(ArtistError::BioTooLong);
    }
    if !check_links(&links) {
        return Err(ArtistError::TooManyLinks);
    }
    ctx.artist_profile.data.owner = ctx.owner;
    ctx.artist_profile.data.name = name;
    ctx.artist_profile.data.bio = bio;
    ctx.artist_profile.data.links = links;
    ctx.artist_profile.data.follower_count = 0;
    ctx.artist_profile.data.total_tips = 0;
    ctx.artist_profile.data.work_count = 0;
    ctx.artist_profile.data.bump = ctx.bump;
    Ok(())
}

/// Replaces the texts of a profile that the caller gives, and no other.
pub fn update_artist_profile(
    ctx: &mut UpdateArtistProfile,
    name: Option<String>,
    bio: Option<String>,
    links: Option<Vec<String>>,
) -> (result: Result<(), ArtistError>)
    ensures
        outcome(
            result,
            old(ctx)@,
            final(ctx)@,
            update_artist_profile_spec(
                old(ctx)@,
                name.deep_view(),
                bio.deep_view(),
                links.deep_view(),
            ),
        ),
        result is Err ==> *final(ctx) == *old(ctx),
        name is None ==> final(ctx).artist_profile.data.name == old(ctx).artist_profile.data.name,
        bio is None ==> final(ctx).artist_profile.data.bio == old(ctx).artist_profile.data.bio,
        links is None ==> final(ctx).artist_profile.data.links == old(ctx).artist_profile.data.links,
{
    if let Err(error) = authorize(&ctx.owner, &ctx.artist_profile.data.owner) {
        return Err(error);
    }
    if let Some(text) = &name {
        if !fits(text, MAX_NAME_LEN) {
            return Err(ArtistError::NameTooLong);
        }
    }
    if let Some(text) = &bio {
        if !fits(text, MAX_BIO_LEN) {
            return Err(ArtistError::BioTooLong);
        }
    }
    if let Some(list) = &links {
        if !check_links(list) {
            return Err(ArtistError::TooManyLinks);
        }
    }
    if let Some(text) = name {
        ctx.artist_profile.data.name = text;
    }
    if let Some(text) = bio {
        ctx.artist_profile.data.bio = text;
    }
    if let Some(list) = links {
        ctx.artist_profile.data.links = list;
    }
    Ok(())
}

/// Empties the vault of a profile into the owner's wallet, before the
/// ledger removes the profile.
pub fn close_artist_profile(ctx: &mut CloseArtistProfile) -> (result: Result<(), ArtistError>)
    ensures
        outcome(result, old(ctx)@, final(ctx)@, close_artist_profile_spec(old(ctx)@)),
        result is Err ==> *final(ctx) == *old(ctx),
        result is Ok ==> final(ctx).tips_vault.lamports == 0,
{
    if let Err(error) = authorize(&ctx.owner, &ctx.artist_profile.data.owner) {
        return Err(error);
    }
    if let Err(error) = authorize(&ctx.artist.key, &ctx.artist_profile.data.owner) {
        return Err(error);
    }
    let remaining_balance = ctx.tips_vault.lamports;
    transfer(&mut ctx.tips_vault, &mut ctx.artist, remaining_balance)
}

/// Texts within their limits always give a profile. Its counters of
/// followers, tips and works are zero, and it bears the bump seed that it was
/// created with: at the address derived for its owner, the bump seed of that
/// address.
pub proof fn law_created_profile_is_blank(
    program_id: Address,
    pre: CreateArtistProfileView,
    name: Seq<char>,
    bio: Seq<char>,
    links: Seq<Seq<char>>,
)
    requires
        byte_len(name) <= MAX_NAME_LEN,
        byte_len(bio) <= MAX_BIO_LEN,
        links_allowed(links),
    ensures
        create_artist_profile_spec(pre, name, bio, links) is Ok,
        ({
            let profile = create_artist_profile_spec(pre, name, bio, links)->Ok_0.artist_profile.data;
            &&& profile.follower_count == 0
            &&& profile.total_tips == 0
            &&& profile.work_count == 0
            &&& profile.bump == pre.bump
            &&& derived_address(artist_profile_seeds(pre.owner), program_id@) == Some(
                (pre.artist_profile.key@, pre.bump),
            ) ==> derived_address(artist_profile_seeds(profile.owner), program_id@)->Some_0.1
                == profile.bump
        }),
{
}

/// The profile that an update leaves behind: that of the outcome where it
/// succeeds, the same where it is refused.
pub open spec fn profile_after_update(
    pre: UpdateArtistProfileView,
    name: Option<Seq<char>>,
    bio: Option<Seq<char>>,
    links: Option<Seq<Seq<char>>>,
) -> ArtistProfileView {
    match update_artist_profile_spec(pre, name, bio, links) {
        Ok(post) => post.artist_profile.data,
        Err(_) => pre.artist_profile.data,
    }
}

/// An update never changes a text that it does not give, whatever else it
/// gives, and never changes the owner, the counters or the bump seed.
pub proof fn law_update_keeps_what_is_not_given(
    pre: UpdateArtistProfileView,
    name: Option<Seq<char>>,
    bio: Option<Seq<char>>,
    links: Option<Seq<Seq<char>>>,
)
    ensures
        ({
            let before = pre.artist_profile.data;
            let after = profile_after_update(pre, name, bio, links);
            &&& name is None ==> after.name == before.name
            &&& bio is None ==> after.bio == before.bio
            &&& links is None ==> after.links == before.links
            &&& after.owner == before.owner
            &&& after.follower_count == before.follower_count
            &&& after.total_tips == before.total_tips
            &&& after.work_count == before.work_count
            &&& after.bump == before.bump
        }),
{
}

/// Creating and updating keep the texts of a profile within their limits.
pub proof fn law_profile_texts_stay_within_bounds(
    created: CreateArtistProfileView,
    pre: UpdateArtistProfileView,
    name: Seq<char>,
    bio: Seq<char>,
    links: Seq<Seq<char>>,
    new_name: Option<Seq<char>>,
    new_bio: Option<Seq<char>>,
    new_links: Option<Seq<Seq<char>>>,
)
    ensures
        create_artist_profile_spec(created, name, bio, links) matches Ok(post)
            ==> post.artist_profile.data.within_bounds(),
        pre.artist_profile.data.within_bounds() ==> profile_after_update(
            pre,
            new_name,
            new_bio,
            new_links,
        ).within_bounds(),
{
}

/// Closing succeeds only for the owner of the profile, and sweeps the vault
/// into no wallet but the owner's: it leaves the vault empty and the wallet
/// raised by all that the vault held. A caller or a receiving wallet under
/// another key is refused as unauthorized.
pub proof fn law_close_sweeps_to_the_owner_only(pre: CloseArtistProfileView)
    ensures
        close_artist_profile_spec(pre) matches Ok(post) ==> {
            &&& pre.owner == pre.artist_profile.data.owner
            &&& post.artist.key == pre.artist_profile.data.owner
            &&& post.tips_vault.lamports == 0
            &&& post.artist.lamports == pre.artist.lamports + pre.tips_vault.lamports
            &&& post.artist_profile == pre.artist_profile
        },
        pre.owner != pre.artist_profile.data.owner || pre.artist.key
            != pre.artist_profile.data.owner ==> close_artist_profile_spec(pre) == Err::<
            CloseArtistProfileView,
            ArtistError,
        >(ArtistError::Unauthorized),
{
}

} // verus!
