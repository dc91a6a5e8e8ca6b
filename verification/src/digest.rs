//! Digests of requests.

use crate::text;
use crate::text::append_hexadecimal;
use sha2::Digest;
use vstd::prelude::*;

verus! {

/// The SHA-256 digest of a byte string.
pub uninterp spec fn sha256(bytes: Seq<u8>) -> Seq<u8>;

/// `sha2::Sha256::digest`: the SHA-256 digest of the bytes, which is 32 bytes long.
#[verifier::external_body]
fn sha256_digest(bytes: &[u8]) -> (digest: Vec<u8>)
    ensures
        digest@ == sha256(bytes@),
        digest@.len() == 32,
{
    sha2::Sha256::digest(bytes).to_vec()
}

/// The name of a digest: its algorithm, and its bytes in hexadecimal.
pub open spec fn digest_name(digest: Seq<u8>) -> Seq<char> {
    "sha256:"@ + text::hexadecimal(digest)
}

/// The name of a digest.
pub fn digest_text(digest: &[u8]) -> (name: String)
    ensures
        name@ == digest_name(digest@),
{
    let mut name: String = "sha256:".to_owned();
    append_hexadecimal(&mut name, digest);
    name
}

/// The digest that names a request, from the request's canonical text.
pub fn canonical_request_digest(canonical: &str) -> (name: String)
    ensures
        name@ == digest_name(sha256(vstd::utf8::encode_utf8(canonical@))),
{
    let digest = sha256_digest(canonical.as_bytes());
    digest_text(digest.as_slice())
}

/// A request is named by its algorithm and then, byte by byte, by the digest of its canonical text.
pub proof fn a_request_is_named_by_its_digest(canonical: &str, name: String, place: int)
    requires
        call_ensures(canonical_request_digest, (canonical,), name),
        0 <= place < sha256(vstd::utf8::encode_utf8(canonical@)).len(),
    ensures
        ({
            let digest = sha256(vstd::utf8::encode_utf8(canonical@));
            &&& name@.len() == 7 + 2 * digest.len()
            &&& name@.subrange(0, 7) == "sha256:"@
            &&& text::number_spelled(name@.subrange(7 + 2 * place, 9 + 2 * place), 16)
                == digest[place]
        }),
{
    let digest = sha256(vstd::utf8::encode_utf8(canonical@));
    text::a_hexadecimal_spells_its_bytes(digest, place);
    reveal_strlit("sha256:");
    assert(name@.subrange(0, 7) =~= "sha256:"@);
    assert(name@.subrange(7 + 2 * place, 9 + 2 * place) =~= text::hexadecimal(digest).subrange(
        2 * place,
        2 * place + 2,
    ));
}

} // verus!
