use crate::address::Address;
use crate::error::ArtistError;
use vstd::prelude::*;

verus! {

/// What the guard answers: a caller may act on a record only if the record
/// names the caller as its owner.
pub open spec fn authorize_spec(caller: Address, owner: Address) -> Result<(), ArtistError> {
    if caller == owner {
        Ok(())
    } else {
        Err(ArtistError::Unauthorized)
    }
}

/// Lets a caller act on a record only if the record names the caller as its owner.
pub fn authorize(caller: &Address, owner: &Address) -> (result: Result<(), ArtistError>)
    ensures
        result == authorize_spec(*caller, *owner),
{
    if *caller == *owner {
        Ok(())
    } else {
        Err(ArtistError::Unauthorized)
    }
}

} // verus!
