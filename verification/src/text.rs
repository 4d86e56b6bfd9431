use vstd::prelude::*;
use vstd::string::StringSliceAdditionalSpecFns;
use vstd::utf8::encode_utf8;

verus! {

/// Number of bytes that a text takes when stored: the length of its UTF-8 encoding.
pub open spec fn byte_len(text: Seq<char>) -> nat {
    encode_utf8(text).len()
}

/// Whether a text takes at most `limit` bytes when stored.
pub fn fits(text: &String, limit: usize) -> (ok: bool)
    ensures
        ok == (byte_len(text@) <= limit),
{
    let bytes = text.as_str().as_bytes();
    assert(bytes@ == encode_utf8(text@));
    bytes.len() <= limit
}

/// Whether every text of a list takes at most `limit` bytes when stored.
pub open spec fn all_fit(texts: Seq<Seq<char>>, limit: nat) -> bool {
    forall|i: int| 0 <= i < texts.len() ==> byte_len(#[trigger] texts[i]) <= limit
}

/// Decides [`all_fit`] for a list of strings.
pub fn each_fits(texts: &Vec<String>, limit: usize) -> (ok: bool)
    ensures
        ok == all_fit(texts.deep_view(), limit as nat),
{
    let mut i: usize = 0;
    while i < texts.len()
        invariant
            i <= texts.len(),
            forall|j: int| 0 <= j < i ==> byte_len(#[trigger] texts.deep_view()[j]) <= limit,
        decreases texts.len() - i,
    {
        assert(texts.deep_view()[i as int] == texts[i as int]@);
        if !fits(&texts[i], limit) {
            return false;
        }
        i += 1;
    }
    true
}

} // verus!
