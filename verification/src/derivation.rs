use crate::address::Address;
use anchor_lang::prelude::Pubkey;
use vstd::prelude::*;
use vstd::slice::slice_to_vec;
use vstd::string::StrSliceExecFns;
use vstd::string::StringSliceAdditionalSpecFns;

verus! {

/// The address and bump seed that the ledger's derivation scheme gives to a
/// list of seeds under a program, or `None` where it gives none.
pub uninterp spec fn derived_address(seeds: Seq<Seq<u8>>, program_id: Seq<u8>) -> Option<(Seq<u8>, u8)>;

/// A derivation result as plain values.
pub open spec fn located(found: Option<(Address, u8)>) -> Option<(Seq<u8>, u8)> {
    match found {
        Some((address, bump)) => Some((address@, bump)),
        None => None,
    }
}

/// Seeds of the profile that belongs to `owner`.
pub open spec fn artist_profile_seeds(owner: Address) -> Seq<Seq<u8>> {
    seq!["artist_profile".spec_bytes(), owner@]
}

/// Seeds of the vault that collects the tips of `profile`.
pub open spec fn tips_vault_seeds(profile: Address) -> Seq<Seq<u8>> {
    seq!["tips_vault".spec_bytes(), profile@]
}

/// Seeds of the record that says `follower` follows `profile`.
pub open spec fn follower_seeds(profile: Address, follower: Address) -> Seq<Seq<u8>> {
    seq!["follower".spec_bytes(), profile@, follower@]
}

/// Seeds of the work that `profile` posts when it has posted `index` works before.
pub open spec fn work_seeds(profile: Address, index: u8) -> Seq<Seq<u8>> {
    seq!["work".spec_bytes(), profile@, seq![index]]
}

/// Seeds of the record of what `user` did with `work`.
pub open spec fn interaction_seeds(work: Address, user: Address) -> Seq<Seq<u8>> {
    seq!["interaction".spec_bytes(), work@, user@]
}

/// Seeds of the request that `requester` makes to `profile`.
pub open spec fn collab_request_seeds(profile: Address, requester: Address) -> Seq<Seq<u8>> {
    seq!["collab_request".spec_bytes(), profile@, requester@]
}

/// Calls `Pubkey::try_find_program_address` of solana-program, which anchor-lang
/// re-exports. Trusted: the call searches the bump seeds from 255 downwards with
/// a hash of the seeds and the program id, so its result is a function of these
/// arguments alone; the contract gives that function a name and says no more.
#[verifier::external_body]
fn find_program_address(seeds: &Vec<Vec<u8>>, program_id: &Address) -> (found: Option<(Address, u8)>)
    ensures
        located(found) == derived_address(seeds.deep_view(), program_id@),
{
    let parts: Vec<&[u8]> = seeds.iter().map(|seed| seed.as_slice()).collect();
    let program = Pubkey::new_from_array(program_id.bytes);
    match Pubkey::try_find_program_address(&parts, &program) {
        Some((key, bump)) => Some((Address { bytes: key.to_bytes() }, bump)),
        None => None,
    }
}

fn labelled(label: &str, first: &Address) -> (seeds: Vec<Vec<u8>>)
    ensures
        seeds.deep_view() == seq![label.spec_bytes(), first@],
{
    let mut seeds: Vec<Vec<u8>> = Vec::new();
    seeds.push(label.as_bytes_vec());
    seeds.push(slice_to_vec(first.bytes.as_slice()));
    assert(seeds@[0].deep_view() =~= seeds@[0]@);
    assert(seeds@[1].deep_view() =~= seeds@[1]@);
    assert(seeds.deep_view() =~= seq![label.spec_bytes(), first@]);
    seeds
}

fn labelled_with(label: &str, first: &Address, second: Vec<u8>) -> (seeds: Vec<Vec<u8>>)
    ensures
        seeds.deep_view() == seq![label.spec_bytes(), first@, second@],
{
    let mut seeds: Vec<Vec<u8>> = labelled(label, first);
    let ghost before = seeds;
    seeds.push(second);
    assert(before.deep_view().len() == 2);
    assert(before@.len() == 2);
    assert(seeds@[0].deep_view() == before.deep_view()[0]);
    assert(seeds@[1].deep_view() == before.deep_view()[1]);
    assert(seeds@[2].deep_view() =~= second@);
    assert(seeds.deep_view() =~= seq![label.spec_bytes(), first@, second@]);
    seeds
}

/// Where the profile of `owner` lives, and its bump seed.
pub fn artist_profile_address(program_id: &Address, owner: &Address) -> (found: Option<(Address, u8)>)
    ensures
        located(found) == derived_address(artist_profile_seeds(*owner), program_id@),
{
    find_program_address(&labelled("artist_profile", owner), program_id)
}

/// Where the tips vault of `profile` lives, and its bump seed.
pub fn tips_vault_address(program_id: &Address, profile: &Address) -> (found: Option<(Address, u8)>)
    ensures
        located(found) == derived_address(tips_vault_seeds(*profile), program_id@),
{
    find_program_address(&labelled("tips_vault", profile), program_id)
}

/// Where the record of `follower` following `profile` lives, and its bump seed.
pub fn follower_address(program_id: &Address, profile: &Address, follower: &Address) -> (found: Option<(Address, u8)>)
    ensures
        located(found) == derived_address(follower_seeds(*profile, *follower), program_id@),
{
    let second = slice_to_vec(follower.bytes.as_slice());
    find_program_address(&labelled_with("follower", profile, second), program_id)
}

/// Where the work with number `index` of `profile` lives, and its bump seed.
pub fn work_address(program_id: &Address, profile: &Address, index: u8) -> (found: Option<(Address, u8)>)
    ensures
        located(found) == derived_address(work_seeds(*profile, index), program_id@),
{
    let mut second: Vec<u8> = Vec::new();
    second.push(index);
    assert(second@ =~= seq![index]);
    find_program_address(&labelled_with("work", profile, second), program_id)
}

/// Where the record of what `user` did with `work` lives, and its bump seed.
pub fn interaction_address(program_id: &Address, work: &Address, user: &Address) -> (found: Option<(Address, u8)>)
    ensures
        located(found) == derived_address(interaction_seeds(*work, *user), program_id@),
{
    let second = slice_to_vec(user.bytes.as_slice());
    find_program_address(&labelled_with("interaction", work, second), program_id)
}

/// Where the request of `requester` to `profile` lives, and its bump seed.
pub fn collab_request_address(program_id: &Address, profile: &Address, requester: &Address) -> (found: Option<(Address, u8)>)
    ensures
        located(found) == derived_address(collab_request_seeds(*profile, *requester), program_id@),
{
    let second = slice_to_vec(requester.bytes.as_slice());
    find_program_address(&labelled_with("collab_request", profile, second), program_id)
}

} // verus!
