//! Content addressing: maps an arbitrary URL string to a fixed-length,
//! filesystem-safe digest used as the name of the repository directory and
//! of its timestamp file.

use vstd::prelude::*;

verus! {

/// The hexadecimal SHA-1 digest of a string's bytes.  Uninterpreted: the
/// digest is computed by an outside crate and is a function of the input
/// alone, so contracts refer to it by this name.
pub uninterp spec fn digest_of(s: Seq<char>) -> Seq<char>;

/// Relies on `sha1_smol::Sha1::from` and `Sha1::hexdigest`: the SHA-1 of
/// the input's UTF-8 bytes, formatted as 40 lowercase hexadecimal
/// characters (five 32-bit words, eight `{:08x}` digits each), a function
/// of the input alone.
#[verifier::external_body]
pub fn url_digest(url: &str) -> (r: String)
    ensures
        r@ == digest_of(url@),
        r@.len() == 40,
        forall|i: int|
            0 <= i < r@.len() ==> (('0' <= #[trigger] r@[i] && r@[i] <= '9') || ('a' <= r@[i]
                && r@[i] <= 'f')),
{
    sha1_smol::Sha1::from(url).hexdigest()
}

/// Content addressing is deterministic: equal URL strings receive equal
/// digests, on every call, in every process and on every machine.
pub proof fn lemma_digest_deterministic(a: Seq<char>, b: Seq<char>)
    requires
        a == b,
    ensures
        digest_of(a) == digest_of(b),
{
}

} // verus!
