use crate::address::Address;
use crate::derivation::{
    derived_address, interaction_address, interaction_seeds, work_address, work_seeds,
};
use crate::error::{outcome, ArtistError};
use crate::guard::authorize;
use crate::state::{
    Account, AccountView, ArtistProfile, ArtistProfileView, Interaction, InteractionType,
    InteractionView, Work, WorkView, MAX_COMMENT_LEN, MAX_DESCRIPTION_LEN, MAX_TITLE_LEN,
};
use crate::text::{byte_len, fits};
use vstd::prelude::*;

verus! {

/// What `post_work` works on: the record to fill, the profile that posts, the
/// caller, and the bump seed of the record's address.
#[derive(Clone, Debug)]
pub struct PostWork {
    pub work: Account<Work>,
    pub artist_profile: Account<ArtistProfile>,
    pub owner: Address,
    pub bump: u8,
}

/// What a [`PostWork`] holds, as mathematical values.
pub struct PostWorkView {
    pub work: AccountView<WorkView>,
    pub artist_profile: AccountView<ArtistProfileView>,
    pub owner: Address,
    pub bump: u8,
}

impl View for PostWork {
    type V = PostWorkView;

    open spec fn view(&self) -> PostWorkView {
        PostWorkView {
            work: self.work@,
            artist_profile: self.artist_profile@,
            owner: self.owner,
            bump: self.bump,
        }
    }
}

impl PostWork {
    /// The state before the profile posts a work at `key`: a blank record there.
    pub open spec fn spec_new(
        key: Address,
        bump: u8,
        artist_profile: AccountView<ArtistProfileView>,
        owner: Address,
    ) -> PostWorkView {
        PostWorkView { work: AccountView { key, data: WorkView::blank() }, artist_profile, owner, bump }
    }

    /// A blank record at `key`, whose bump seed is `bump`, for the next work
    /// of the profile.
    pub fn new(key: Address, bump: u8, artist_profile: Account<ArtistProfile>, owner: Address) -> (ctx:
        PostWork)
        ensures
            ctx@ == PostWork::spec_new(key, bump, artist_profile@, owner),
    {
        PostWork { work: Account { key, data: Work::default() }, artist_profile, owner, bump }
    }

    /// A blank record at the address derived for the next work of the
    /// profile, or `None` where the derivation gives no address. The number
    /// of works that the profile has posted so far is the number of the new
    /// work in the derivation.
    pub fn locate(program_id: &Address, artist_profile: Account<ArtistProfile>, owner: Address) -> (found:
        Option<PostWork>)
        ensures
            match derived_address(
                work_seeds(artist_profile.key, artist_profile.data.work_count),
                program_id@,
            ) {
                Some((address, bump)) => found matches Some(ctx) && ctx.work.key@ == address && ctx@
                    == PostWork::spec_new(ctx.work.key, bump, artist_profile@, owner),
                None => found is None,
            },
    {
        match work_address(program_id, &artist_profile.key, artist_profile.data.work_count) {
            Some((key, bump)) => Some(PostWork::new(key, bump, artist_profile, owner)),
            None => None,
        }
    }
}

/// What `interact_with_work` works on: the work, the record of what the user
/// did with it, the user, and the bump seed of the record's address.
#[derive(Clone, Debug)]
pub struct InteractWithWork {
    pub work: Account<Work>,
    pub interaction: Account<Interaction>,
    pub user: Address,
    pub bump: u8,
}

/// What an [`InteractWithWork`] holds, as mathematical values.
pub struct InteractWithWorkView {
    pub work: AccountView<WorkView>,
    pub interaction: AccountView<InteractionView>,
    pub user: Address,
    pub bump: u8,
}

impl View for InteractWithWork {
    type V = InteractWithWorkView;

    open spec fn view(&self) -> InteractWithWorkView {
        InteractWithWorkView {
            work: self.work@,
            interaction: self.interaction@,
            user: self.user,
            bump: self.bump,
        }
    }
}

impl InteractWithWork {
    /// The state before `user` does something with the work for the first
    /// time: a blank record at `key`.
    pub open spec fn spec_new(key: Address, bump: u8, work: AccountView<WorkView>, user: Address) -> InteractWithWorkView {
        InteractWithWorkView {
            work,
            interaction: AccountView { key, data: InteractionView::blank() },
            user,
            bump,
        }
    }

    /// A blank record at `key`, whose bump seed is `bump`, for the pair of
    /// the work and `user`.
    pub fn new(key: Address, bump: u8, work: Account<Work>, user: Address) -> (ctx: InteractWithWork)
        ensures
            ctx@ == InteractWithWork::spec_new(key, bump, work@, user),
    {
        InteractWithWork {
            work,
            interaction: Account { key, data: Interaction::default() },
            user,
            bump,
        }
    }

    /// A blank record at the address derived for the pair of the work and
    /// `user`, or `None` where the derivation gives no address.
    pub fn locate(program_id: &Address, work: Account<Work>, user: Address) -> (found: Option<
        InteractWithWork,
    >)
        ensures
            match derived_address(interaction_seeds(work.key, user), program_id@) {
                Some((address, bump)) => found matches Some(ctx) && ctx.interaction.key@ == address
                    && ctx@ == InteractWithWork::spec_new(ctx.interaction.key, bump, work@, user),
                None => found is None,
            },
    {
        match interaction_address(program_id, &work.key, &user) {
            Some((key, bump)) => Some(InteractWithWork::new(key, bump, work, user)),
            None => None,
        }
    }
}

/// What posting does: for the owner of the profile, and with a title and a
/// description within their limits, the record becomes a work of the profile
/// without likes or comments, stamped with the time, and the profile counts
/// one work more. The profile holds at most 255 works.
pub open spec fn post_work_spec(
    pre: PostWorkView,
    title: Seq<char>,
    description: Seq<char>,
    content_url: Seq<char>,
    now: int,
) -> Result<PostWorkView, ArtistError> {
    let profile = pre.artist_profile.data;
    if pre.owner != profile.owner {
        Err(ArtistError::Unauthorized)
    } else if byte_len(title) > MAX_TITLE_LEN {
        Err(ArtistError::TitleTooLong)
    } else if byte_len(description) > MAX_DESCRIPTION_LEN {
        Err(ArtistError::DescriptionTooLong)
    } else if profile.work_count + 1 > u8::MAX {
        Err(ArtistError::NumericalOverflow)
    } else {
        Ok(
            PostWorkView {
                work: AccountView {
                    key: pre.work.key,
                    data: WorkView {
                        artist: pre.artist_profile.key,
                        title,
                        description,
                        content_url,
                        likes: 0,
                        comment_count: 0,
                        timestamp: now,
                        bump: pre.bump,
                    },
                },
                artist_profile: AccountView {
                    key: pre.artist_profile.key,
                    data: ArtistProfileView { work_count: profile.work_count + 1, ..profile },
                },
                owner: pre.owner,
                bump: pre.bump,
            },
        )
    }
}

/// The record of an interaction once the user, the work, the time and the
/// bump seed are written to it.
pub open spec fn stamped(
    record: InteractionView,
    pre: InteractWithWorkView,
    now: int,
) -> InteractionView {
    InteractionView { user: pre.user, work: pre.work.key, timestamp: now, bump: pre.bump, ..record }
}

/// What a like does: a user who has not liked the work yet has now, and the
/// work counts one like more.
pub open spec fn like_spec(pre: InteractWithWorkView, now: int) -> Result<
    InteractWithWorkView,
    ArtistError,
> {
    let record = pre.interaction.data;
    if record.has_liked {
        Err(ArtistError::AlreadyLiked)
    } else if pre.work.data.likes + 1 > u64::MAX {
        Err(ArtistError::NumericalOverflow)
    } else {
        Ok(
            InteractWithWorkView {
                work: AccountView {
                    key: pre.work.key,
                    data: WorkView { likes: pre.work.data.likes + 1, ..pre.work.data },
                },
                interaction: AccountView {
                    key: pre.interaction.key,
                    data: stamped(InteractionView { has_liked: true, ..record }, pre, now),
                },
                user: pre.user,
                bump: pre.bump,
            },
        )
    }
}

/// What a comment does: a text within its limit replaces the comment in the
/// record, and the work counts one comment more.
pub open spec fn comment_spec(
    pre: InteractWithWorkView,
    comment_text: Option<Seq<char>>,
    now: int,
) -> Result<InteractWithWorkView, ArtistError> {
    let record = pre.interaction.data;
    match comment_text {
        None => Err(ArtistError::CommentRequired),
        Some(text) => if byte_len(text) > MAX_COMMENT_LEN {
            Err(ArtistError::CommentTooLong)
        } else if pre.work.data.comment_count + 1 > u64::MAX {
            Err(ArtistError::NumericalOverflow)
        } else {
            Ok(
                InteractWithWorkView {
                    work: AccountView {
                        key: pre.work.key,
                        data: WorkView {
                            comment_count: pre.work.data.comment_count + 1,
                            ..pre.work.data
                        },
                    },
                    interaction: AccountView {
                        key: pre.interaction.key,
                        data: stamped(InteractionView { comment: Some(text), ..record }, pre, now),
                    },
                    user: pre.user,
                    bump: pre.bump,
                },
            )
        },
    }
}

/// What an interaction does, by its kind. A like takes no notice of a text
/// that comes with it.
pub open spec fn interact_with_work_spec(
    pre: InteractWithWorkView,
    interaction_type: InteractionType,
    comment_text: Option<Seq<char>>,
    now: int,
) -> Result<InteractWithWorkView, ArtistError> {
    match interaction_type {
        InteractionType::Like => like_spec(pre, now),
        InteractionType::Comment => comment_spec(pre, comment_text, now),
    }
}

/// Posts a work of the artist at the time `now`.
pub fn post_work(
    ctx: &mut PostWork,
    title: String,
    description: String,
    content_url: String,
    now: i64,
) -> (result: Result<(), ArtistError>)
    ensures
        outcome(
            result,
            old(ctx)@,
            final(ctx)@,
            post_work_spec(old(ctx)@, title@, description@, content_url@, now as int),
        ),
        result is Err ==> *final(ctx) == *old(ctx),
{
    if let Err(error) = authorize(&ctx.owner, &ctx.artist_profile.data.owner) {
        return Err(error);
    }
    if !fits(&title, MAX_TITLE_LEN) {
        return Err(ArtistError::TitleTooLong);
    }
    if !fits(&description, MAX_DESCRIPTION_LEN) {
        return Err(ArtistError::DescriptionTooLong);
    }
    match ctx.artist_profile.data.work_count.checked_add(1) {
        None => Err(ArtistError::NumericalOverflow),
        Some(count) => {
            ctx.work.data.artist = ctx.artist_profile.key;
            ctx.work.data.title = title;
            ctx.work.data.description = description;
            ctx.work.data.content_url = content_url;
            ctx.work.data.likes = 0;
            ctx.work.data.comment_count = 0;
            ctx.work.data.timestamp = now;
            ctx.work.data.bump = ctx.bump;
            ctx.artist_profile.data.work_count = count;
            Ok(())
        },
    }
}

/// Records a like or a comment of the user on the work at the time `now`.
pub fn interact_with_work(
    ctx: &mut InteractWithWork,
    interaction_type: InteractionType,
    comment_text: Option<String>,
    now: i64,
) -> (result: Result<(), ArtistError>)
    ensures
        outcome(
            result,
            old(ctx)@,
            final(ctx)@,
            interact_with_work_spec(
                old(ctx)@,
                interaction_type,
                comment_text.deep_view(),
                now as int,
            ),
        ),
        result is Err ==> *final(ctx) == *old(ctx),
{
    match interaction_type {
        InteractionType::Like => {
            if ctx.interaction.data.has_liked {
                return Err(ArtistError::AlreadyLiked);
            }
            match ctx.work.data.likes.checked_add(1) {
                None => {
                    return Err(ArtistError::NumericalOverflow);
                },
                Some(count) => {
                    ctx.interaction.data.has_liked = true;
                    ctx.work.data.likes = count;
                },
            }
        },
        InteractionType::Comment => {
            match comment_text {
                None => {
                    return Err(ArtistError::CommentRequired);
                },
                Some(text) => {
                    if !fits(&text, MAX_COMMENT_LEN) {
                        return Err(ArtistError::CommentTooLong);
                    }
                    match ctx.work.data.comment_count.checked_add(1) {
                        None => {
                            return Err(ArtistError::NumericalOverflow);
                        },
                        Some(count) => {
                            ctx.interaction.data.comment = Some(text);
                            ctx.work.data.comment_count = count;
                        },
                    }
                },
            }
        },
    }
    ctx.interaction.data.user = ctx.user;
    ctx.interaction.data.work = ctx.work.key;
    ctx.interaction.data.timestamp = now;
    ctx.interaction.data.bump = ctx.bump;
    Ok(())
}

/// One call of `post_work`: the state it finds and what it is given.
pub struct PostWorkCall {
    pub pre: PostWorkView,
    pub title: Seq<char>,
    pub description: Seq<char>,
    pub content_url: Seq<char>,
    pub now: int,
}

impl PostWorkCall {
    /// What the call does.
    pub open spec fn outcome(self) -> Result<PostWorkView, ArtistError> {
        post_work_spec(self.pre, self.title, self.description, self.content_url, self.now)
    }

    /// The number of the work in the derivation of its address: the number
    /// of works that the profile has posted before.
    pub open spec fn derivation_index(self) -> nat {
        self.pre.artist_profile.data.work_count
    }
}

/// Whether the later call finds the profile as the earlier call, which
/// succeeded, left it.
pub open spec fn post_follows(earlier: PostWorkCall, later: PostWorkCall) -> bool {
    earlier.outcome() matches Ok(post) && later.pre.artist_profile.data == post.artist_profile.data
}

/// Successful posts of one profile, one after the other: each finds the
/// profile as the post before left it.
pub open spec fn posts_in_turn(calls: Seq<PostWorkCall>) -> bool {
    &&& calls.len() > 0 ==> calls.last().outcome() is Ok
    &&& forall|i: int, j: int|
        0 <= i && j == i + 1 && j < calls.len() ==> #[trigger] post_follows(calls[i], calls[j])
}

/// A post that succeeds raises the count of works by one, to 255 at most.
pub proof fn law_post_counts_one_work(call: PostWorkCall)
    requires
        call.outcome() is Ok,
    ensures
        call.outcome()->Ok_0.artist_profile.data.work_count == call.derivation_index() + 1,
        call.derivation_index() < 255,
{
}

/// After any number of successful posts in turn, a profile that started
/// without works counts that number of works, which is at most 255; and the
/// number of each work in the derivation of its address is the number of
/// posts before it, so that the first work has number 0.
pub proof fn law_work_count_counts_posts(calls: Seq<PostWorkCall>)
    requires
        calls.len() > 0,
        posts_in_turn(calls),
        calls[0].derivation_index() == 0,
    ensures
        calls.last().outcome() is Ok,
        calls.last().outcome()->Ok_0.artist_profile.data.work_count == calls.len(),
        calls.len() <= 255,
        forall|i: int| 0 <= i < calls.len() ==> (#[trigger] calls[i]).derivation_index() == i,
    decreases calls.len(),
{
    let earlier = calls.drop_last();
    let last = calls.len() - 1;
    law_post_counts_one_work(calls[last]);
    if earlier.len() > 0 {
        assert(post_follows(calls[last - 1], calls[last]));
        assert(earlier.last() == calls[last - 1]);
        assert(earlier[0] == calls[0]);
        assert forall|i: int, j: int| 0 <= i && j == i + 1 && j < earlier.len() implies #[trigger] post_follows(
            earlier[i],
            earlier[j],
        ) by {
            assert(post_follows(calls[i], calls[j]));
        }
        law_work_count_counts_posts(earlier);
        assert forall|i: int| 0 <= i < calls.len() implies (#[trigger] calls[i]).derivation_index()
            == i by {
            if i < last {
                assert(earlier[i] == calls[i]);
            }
        }
    }
}

/// A post leaves the new work without likes and comments, whatever the
/// record held before.
pub proof fn law_posted_work_starts_empty(call: PostWorkCall)
    requires
        call.outcome() is Ok,
    ensures
        call.outcome()->Ok_0.work.data.likes == 0,
        call.outcome()->Ok_0.work.data.comment_count == 0,
        call.outcome()->Ok_0.work.data.within_bounds(),
{
}

/// The work that an interaction leaves behind: that of the outcome where it
/// succeeds, the same where it is refused.
pub open spec fn work_after_interaction(
    pre: InteractWithWorkView,
    interaction_type: InteractionType,
    comment_text: Option<Seq<char>>,
    now: int,
) -> WorkView {
    match interact_with_work_spec(pre, interaction_type, comment_text, now) {
        Ok(post) => post.work.data,
        Err(_) => pre.work.data,
    }
}

/// A like that succeeds raises the likes of the work by one. Once a user has
/// liked a work, every further like on the same record is refused as already
/// liked, and leaves the likes of the work as they are.
pub proof fn law_second_like_is_refused(
    first: InteractWithWorkView,
    first_now: int,
    second: InteractWithWorkView,
    comment_text: Option<Seq<char>>,
    second_now: int,
)
    requires
        like_spec(first, first_now) is Ok,
        second.interaction == like_spec(first, first_now)->Ok_0.interaction,
    ensures
        like_spec(first, first_now)->Ok_0.work.data.likes == first.work.data.likes + 1,
        interact_with_work_spec(second, InteractionType::Like, comment_text, second_now) == Err::<
            InteractWithWorkView,
            ArtistError,
        >(ArtistError::AlreadyLiked),
        work_after_interaction(second, InteractionType::Like, comment_text, second_now).likes
            == second.work.data.likes,
{
}

/// A comment of more than 500 bytes is refused as too long, and a comment
/// without a text as missing.
pub proof fn law_comment_needs_a_text_within_its_limit(
    pre: InteractWithWorkView,
    comment_text: Option<Seq<char>>,
    now: int,
)
    ensures
        comment_text matches Some(text) && byte_len(text) > 500 ==> interact_with_work_spec(
            pre,
            InteractionType::Comment,
            comment_text,
            now,
        ) == Err::<InteractWithWorkView, ArtistError>(ArtistError::CommentTooLong),
        comment_text is None ==> interact_with_work_spec(
            pre,
            InteractionType::Comment,
            comment_text,
            now,
        ) == Err::<InteractWithWorkView, ArtistError>(ArtistError::CommentRequired),
        interact_with_work_spec(pre, InteractionType::Comment, comment_text, now) matches Ok(post)
            ==> post.interaction.data.within_bounds() && post.work.data.likes
            == pre.work.data.likes,
{
}

} // verus!
