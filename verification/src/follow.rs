use crate::address::Address;
use crate::derivation::{derived_address, follower_address, follower_seeds};
use crate::error::{outcome, ArtistError};
use crate::state::{Account, AccountView, ArtistProfile, ArtistProfileView, FollowerAccount};
use vstd::prelude::*;

verus! {

/// What `follow_artist` works on: the record of the pair, the profile that is
/// followed, the follower, and the bump seed of the record's address.
#[derive(Clone, Debug)]
pub struct FollowArtist {
    pub follower_account: Account<FollowerAccount>,
    pub artist_profile: Account<ArtistProfile>,
    pub follower: Address,
    pub bump: u8,
}

/// What a [`FollowArtist`] holds, as mathematical values.
pub struct FollowArtistView {
    pub follower_account: AccountView<FollowerAccount>,
    pub artist_profile: AccountView<ArtistProfileView>,
    pub follower: Address,
    pub bump: u8,
}

impl View for FollowArtist {
    type V = FollowArtistView;

    open spec fn view(&self) -> FollowArtistView {
        FollowArtistView {
            follower_account: self.follower_account@,
            artist_profile: self.artist_profile@,
            follower: self.follower,
            bump: self.bump,
        }
    }
}

impl FollowArtist {
    /// The state before `follower` follows the profile for the first time: a
    /// blank record at `key`.
    pub open spec fn spec_new(
        key: Address,
        bump: u8,
        artist_profile: AccountView<ArtistProfileView>,
        follower: Address,
    ) -> FollowArtistView {
        FollowArtistView {
            follower_account: AccountView { key, data: FollowerAccount::blank() },
            artist_profile,
            follower,
            bump,
        }
    }

    /// A blank record at `key`, whose bump seed is `bump`, for the pair of
    /// `follower` and the profile.
    pub fn new(key: Address, bump: u8, artist_profile: Account<ArtistProfile>, follower: Address) -> (ctx:
        FollowArtist)
        ensures
            ctx@ == FollowArtist::spec_new(key, bump, artist_profile@, follower),
    {
        FollowArtist {
            follower_account: Account { key, data: FollowerAccount::default() },
            artist_profile,
            follower,
            bump,
        }
    }

    /// A blank record at the address derived for the pair of `follower` and
    /// the profile, or `None` where the derivation gives no address.
    pub fn locate(program_id: &Address, artist_profile: Account<ArtistProfile>, follower: Address) -> (found:
        Option<FollowArtist>)
        ensures
            match derived_address(follower_seeds(artist_profile.key, follower), program_id@) {
                Some((address, bump)) => found matches Some(ctx) && ctx.follower_account.key@
                    == address && ctx@ == FollowArtist::spec_new(
                    ctx.follower_account.key,
                    bump,
                    artist_profile@,
                    follower,
                ),
                None => found is None,
            },
    {
        match follower_address(program_id, &artist_profile.key, &follower) {
            Some((key, bump)) => Some(FollowArtist::new(key, bump, artist_profile, follower)),
            None => None,
        }
    }
}

/// What following does: a pair that does not follow yet is marked as
/// following, and the profile counts one follower more.
pub open spec fn follow_artist_spec(pre: FollowArtistView) -> Result<FollowArtistView, ArtistError> {
    let profile = pre.artist_profile.data;
    if pre.follower_account.data.is_following {
        Err(ArtistError::AlreadyFollowing)
    } else if profile.follower_count + 1 > u64::MAX {
        Err(ArtistError::NumericalOverflow)
    } else {
        Ok(
            FollowArtistView {
                follower_account: AccountView {
                    key: pre.follower_account.key,
                    data: FollowerAccount {
                        follower: pre.follower,
                        artist: pre.artist_profile.key,
                        is_following: true,
                        bump: pre.bump,
                    },
                },
                artist_profile: AccountView {
                    key: pre.artist_profile.key,
                    data: ArtistProfileView {
                        follower_count: profile.follower_count + 1,
                        ..profile
                    },
                },
                follower: pre.follower,
                bump: pre.bump,
            },
        )
    }
}

/// Makes the follower follow the artist.
pub fn follow_artist(ctx: &mut FollowArtist) -> (result: Result<(), ArtistError>)
    ensures
        outcome(result, old(ctx)@, final(ctx)@, follow_artist_spec(old(ctx)@)),
        result is Err ==> *final(ctx) == *old(ctx),
{
    if ctx.follower_account.data.is_following {
        return Err(ArtistError::AlreadyFollowing);
    }
    match ctx.artist_profile.data.follower_count.checked_add(1) {
        None => Err(ArtistError::NumericalOverflow),
        Some(count) => {
            ctx.follower_account.data.follower = ctx.follower;
            ctx.follower_account.data.artist = ctx.artist_profile.key;
            ctx.follower_account.data.is_following = true;
            ctx.follower_account.data.bump = ctx.bump;
            ctx.artist_profile.data.follower_count = count;
            Ok(())
        },
    }
}

/// The profile that an attempt to follow leaves behind: that of the outcome
/// where it succeeds, the same where it is refused.
pub open spec fn profile_after_follow(pre: FollowArtistView) -> ArtistProfileView {
    match follow_artist_spec(pre) {
        Ok(post) => post.artist_profile.data,
        Err(_) => pre.artist_profile.data,
    }
}

/// Whether the later attempt finds the profile as the earlier attempt left it.
pub open spec fn follow_follows(earlier: FollowArtistView, later: FollowArtistView) -> bool {
    later.artist_profile.data == profile_after_follow(earlier)
}

/// Attempts to follow one profile, one after the other: each finds the
/// profile as the attempt before left it.
pub open spec fn follow_attempts_in_turn(attempts: Seq<FollowArtistView>) -> bool {
    forall|i: int, j: int|
        0 <= i && j == i + 1 && j < attempts.len() ==> #[trigger] follow_follows(
            attempts[i],
            attempts[j],
        )
}

/// How many of the attempts succeed.
pub open spec fn follows_made(attempts: Seq<FollowArtistView>) -> nat
    decreases attempts.len(),
{
    if attempts.len() == 0 {
        0
    } else {
        follows_made(attempts.drop_last()) + if follow_artist_spec(attempts.last()) is Ok {
            1nat
        } else {
            0nat
        }
    }
}

/// Once a pair follows, every further attempt on its record is refused as
/// already following, and leaves the count of followers alone.
pub proof fn law_second_follow_is_refused(first: FollowArtistView, second: FollowArtistView)
    requires
        follow_artist_spec(first) is Ok,
        second.follower_account == follow_artist_spec(first)->Ok_0.follower_account,
    ensures
        follow_artist_spec(second) == Err::<FollowArtistView, ArtistError>(
            ArtistError::AlreadyFollowing,
        ),
        profile_after_follow(second) == second.artist_profile.data,
{
}

/// Over any attempts in turn, the count of followers rises by the number of
/// attempts that succeed: from zero, it is that number.
pub proof fn law_follower_count_counts_follows(attempts: Seq<FollowArtistView>)
    requires
        attempts.len() > 0,
        follow_attempts_in_turn(attempts),
    ensures
        profile_after_follow(attempts.last()).follower_count
            == attempts[0].artist_profile.data.follower_count + follows_made(attempts),
    decreases attempts.len(),
{
    let earlier = attempts.drop_last();
    let last = attempts.len() - 1;
    if earlier.len() == 0 {
        assert(follows_made(earlier) == 0);
    } else {
        assert(follow_follows(attempts[last - 1], attempts[last]));
        assert(earlier.last() == attempts[last - 1]);
        assert(earlier[0] == attempts[0]);
        assert forall|i: int, j: int|
            0 <= i && j == i + 1 && j < earlier.len() implies #[trigger] follow_follows(
            earlier[i],
            earlier[j],
        ) by {
            assert(follow_follows(attempts[i], attempts[j]));
        }
        law_follower_count_counts_follows(earlier);
    }
}

/// The follower records that the ledger keeps for one profile, each under
/// the follower it is for, beside the profile itself. The ledger keeps at
/// most one record for a pair of follower and profile.
pub struct FollowBook {
    pub artist_profile: AccountView<ArtistProfileView>,
    pub records: Map<Address, FollowerAccount>,
}

/// One attempt to follow: who tries, and the address and bump seed of the
/// record of the pair.
pub struct FollowCall {
    pub follower: Address,
    pub key: Address,
    pub bump: u8,
}

impl FollowBook {
    /// The book of a profile that nobody has tried to follow yet.
    pub open spec fn opened(artist_profile: AccountView<ArtistProfileView>) -> FollowBook {
        FollowBook { artist_profile, records: Map::empty() }
    }

    /// What an attempt finds: the record that the book keeps for the
    /// follower, or a blank one where it keeps none, beside the profile.
    pub open spec fn found_by(self, call: FollowCall) -> FollowArtistView {
        FollowArtistView {
            follower_account: AccountView {
                key: call.key,
                data: if self.records.dom().contains(call.follower) {
                    self.records[call.follower]
                } else {
                    FollowerAccount::blank()
                },
            },
            artist_profile: self.artist_profile,
            follower: call.follower,
            bump: call.bump,
        }
    }

    /// The book after an attempt: where the attempt succeeds, the record it
    /// wrote is kept under the follower and the profile is the one it left;
    /// where it is refused, the book is as it was.
    pub open spec fn after(self, call: FollowCall) -> FollowBook {
        match follow_artist_spec(self.found_by(call)) {
            Ok(post) => FollowBook {
                artist_profile: post.artist_profile,
                records: self.records.insert(call.follower, post.follower_account.data),
            },
            Err(_) => self,
        }
    }

    /// The book after attempts one after the other.
    pub open spec fn after_all(self, calls: Seq<FollowCall>) -> FollowBook
        decreases calls.len(),
    {
        if calls.len() == 0 {
            self
        } else {
            self.after_all(calls.drop_last()).after(calls.last())
        }
    }

    /// How many of the attempts, made one after the other, succeed.
    pub open spec fn successes(self, calls: Seq<FollowCall>) -> nat
        decreases calls.len(),
    {
        if calls.len() == 0 {
            0
        } else {
            let before = self.after_all(calls.drop_last());
            self.successes(calls.drop_last()) + if follow_artist_spec(
                before.found_by(calls.last()),
            ) is Ok {
                1nat
            } else {
                0nat
            }
        }
    }

    /// Every record of the book is marked as following, names the follower
    /// it is kept under, and names the profile of the book.
    pub open spec fn all_marked(self) -> bool {
        forall|follower: Address| #[trigger]
            self.records.dom().contains(follower) ==> {
                &&& self.records[follower].is_following
                &&& self.records[follower].follower == follower
                &&& self.records[follower].artist == self.artist_profile.key
            }
    }
}

/// For a profile without followers and any attempts to follow it, made one
/// after the other, of which k succeed: the profile counts k followers, and
/// the ledger keeps exactly k follower records for it, each marked as
/// following, each naming the profile, and each for another follower.
pub proof fn law_follower_records_match_the_count(
    artist_profile: AccountView<ArtistProfileView>,
    calls: Seq<FollowCall>,
)
    requires
        artist_profile.data.follower_count == 0,
    ensures
        ({
            let book = FollowBook::opened(artist_profile).after_all(calls);
            let k = FollowBook::opened(artist_profile).successes(calls);
            &&& book.artist_profile.data.follower_count == k
            &&& book.artist_profile.key == artist_profile.key
            &&& book.records.dom().finite()
            &&& book.records.dom().len() == k
            &&& book.all_marked()
        }),
    decreases calls.len(),
{
    let start = FollowBook::opened(artist_profile);
    if calls.len() > 0 {
        law_follower_records_match_the_count(artist_profile, calls.drop_last());
        let before = start.after_all(calls.drop_last());
        let call = calls.last();
        let book = before.after(call);
        assert(book == start.after_all(calls));
        if follow_artist_spec(before.found_by(call)) is Ok {
            assert(!before.records.dom().contains(call.follower));
            assert(book.records.dom() =~= before.records.dom().insert(call.follower));
            assert forall|follower: Address| #[trigger]
                book.records.dom().contains(follower) implies {
                &&& book.records[follower].is_following
                &&& book.records[follower].follower == follower
                &&& book.records[follower].artist == book.artist_profile.key
            } by {
                if follower != call.follower {
                    assert(before.records.dom().contains(follower));
                }
            }
        }
    }
}

} // verus!
