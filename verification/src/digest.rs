//! Instruction discriminators: the first eight bytes of a SHA-256 digest.
use vstd::prelude::*;
use vstd::string::StringExecFns;
use crate::names::{snake_case, to_snake_case};

verus! {

/// The SHA-256 digest of a byte string, as `openssl` computes it.
pub uninterp spec fn sha256_digest(data: Seq<u8>) -> Seq<u8>;

/// Calls `openssl::sha::sha256`, which computes the SHA-256 hash of `data`.
/// The digest depends on the bytes alone and is named by [`sha256_digest`];
/// its length of 32 is the array's own.
#[verifier::external_body]
fn sha256(data: &[u8]) -> (digest: [u8; 32])
    ensures
        digest@ == sha256_digest(data@),
{
    openssl::sha::sha256(data)
}

/// The text that is hashed for an instruction: the namespace tag `global:`
/// followed by the snake-case form of the instruction's name.
pub open spec fn sighash_preimage(name: Seq<char>) -> Seq<char> {
    "global:"@ + snake_case(name)
}

/// The discriminator of the instruction called `name`: the first eight bytes,
/// in the digest's own order, of the SHA-256 digest of the UTF-8 encoding of
/// [`sighash_preimage`].
pub open spec fn sighash(name: Seq<char>) -> Seq<u8> {
    sha256_digest(vstd::utf8::encode_utf8(sighash_preimage(name))).subrange(0, 8)
}

/// Picks the discriminator out of a finished digest: its first eight bytes,
/// in order.
pub fn digest_prefix(digest: &[u8; 32]) -> (prefix: [u8; 8])
    ensures
        prefix@ == digest@.subrange(0, 8),
{
    let prefix: [u8; 8] = [
        digest[0], digest[1], digest[2], digest[3],
        digest[4], digest[5], digest[6], digest[7],
    ];
    assert(prefix@ =~= digest@.subrange(0, 8));
    prefix
}

/// Derives the eight-byte discriminator of an instruction from its name.
pub fn build_sighash(fname: &str) -> (discriminator: [u8; 8])
    ensures
        discriminator@ == sighash(fname@),
        sha256_digest(vstd::utf8::encode_utf8(sighash_preimage(fname@))).len() == 32,
{
    let function_name = to_snake_case(fname);
    let mut preimage = String::from_str("global:");
    preimage.append(function_name.as_str());
    let digest = sha256(preimage.as_str().as_bytes());
    digest_prefix(&digest)
}

/// The discriminator is a function of the name alone: equal names have equal
/// discriminators, whenever and wherever they are derived.
pub proof fn lemma_sighash_deterministic(first: Seq<char>, second: Seq<char>)
    requires
        first == second,
    ensures
        sighash(first) == sighash(second),
{
}

/// A name and its snake-case form have the same discriminator wherever the
/// conversion leaves the converted name as it is.
pub proof fn lemma_sighash_of_converted_name(name: Seq<char>)
    ensures
        snake_case(snake_case(name)) == snake_case(name) ==> sighash(snake_case(name)) == sighash(
            name,
        ),
{
}

} // verus!
