//! The key under which a transformed image lies in the cache.

use vstd::prelude::*;
use vstd::string::*;
use crate::canonical::lemma_canonical_injective;
use crate::digest::{hex_encode, lemma_hex_encode_injective, to_hex};
use crate::params::ImgParams;
use crate::text::push_char;

verus! {

/// The cache key of an image under given parameters: the digest of the
/// parameters' canonical text in hexadecimal, a slash, the image's key.
pub open spec fn cache_key_spec(params: ImgParams, img_key: Seq<char>) -> Seq<char> {
    hex_encode(params.param_key()@) + seq!['/'] + img_key
}

/// Derives the cache key of an image under given parameters.
pub fn cache_key(params: &ImgParams, img_key: &str) -> (key: String)
    ensures
        key@ == cache_key_spec(*params, img_key@),
{
    let digest = params.cacheable_param_key();
    let mut key = to_hex(digest.as_slice());
    push_char(&mut key, '/');
    key.append(img_key);
    key
}

/// The same image key and the same parameters give the same cache key:
/// nothing else goes into it.
pub proof fn lemma_cache_key_deterministic(a: ImgParams, key_a: Seq<char>, b: ImgParams, key_b: Seq<char>)
    requires
        a == b,
        key_a == key_b,
    ensures
        cache_key_spec(a, key_a) == cache_key_spec(b, key_b),
{
}

/// Two cache keys are equal exactly when the image keys are equal and the
/// digests of the parameters are equal.
pub proof fn lemma_cache_key_parts(a: ImgParams, key_a: Seq<char>, b: ImgParams, key_b: Seq<char>)
    ensures
        cache_key_spec(a, key_a) == cache_key_spec(b, key_b) <==> key_a == key_b && a.param_key()
            == b.param_key(),
{
    let full_a = cache_key_spec(a, key_a);
    let full_b = cache_key_spec(b, key_b);
    let hex_a = hex_encode(a.param_key()@);
    let hex_b = hex_encode(b.param_key()@);
    assert(hex_a.len() == 32 && hex_b.len() == 32);
    if full_a == full_b {
        assert forall|i: int| 0 <= i < 32 implies hex_a[i] == hex_b[i] by {
            assert(full_a[i] == hex_a[i]);
            assert(full_b[i] == hex_b[i]);
        }
        assert(hex_a =~= hex_b);
        lemma_hex_encode_injective(a.param_key()@, b.param_key()@);
        assert(a.param_key() =~= b.param_key());
        assert(full_a.len() == 33 + key_a.len() && full_b.len() == 33 + key_b.len());
        assert forall|i: int| 0 <= i < key_a.len() implies key_a[i] == key_b[i] by {
            assert(full_a[33 + i] == key_a[i]);
            assert(full_b[33 + i] == key_b[i]);
        }
        assert(key_a =~= key_b);
    }
}

/// Requests for one image whose parameters differ in any field have
/// different cache keys, unless the digests of their canonical texts collide.
pub proof fn lemma_cache_key_tells_params(a: ImgParams, b: ImgParams, img_key: Seq<char>)
    requires
        a != b,
    ensures
        a.canonical() != b.canonical(),
        cache_key_spec(a, img_key) == cache_key_spec(b, img_key) ==> a.param_key()
            == b.param_key(),
{
    lemma_canonical_injective(a, b);
    lemma_cache_key_parts(a, img_key, b, img_key);
}

} // verus!
