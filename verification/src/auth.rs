//! Signed and expiring URLs: a request may carry a signature over its own
//! path and query, and a time to which it is valid.

use vstd::prelude::*;
use vstd::string::*;
use vstd::utf8::encode_utf8;
use crate::digest::{hex_encode, md5_digest, md5_sum, to_hex};
use crate::errors::ImageError;
use crate::text::{
    chars_of, find_char, first_index, lemma_first_index, lemma_first_index_props, push_char,
    push_chars, same_text,
};

verus! {

/// The parameters of a query: the texts between its `&` characters.
pub open spec fn segments(query: Seq<char>) -> Seq<Seq<char>>
    decreases query.len(),
{
    let end = first_index(query, '&');
    if 0 <= end < query.len() {
        seq![query.take(end)] + segments(query.skip(end + 1))
    } else {
        seq![query]
    }
}

/// Whether a parameter of a query is the signature: `s` alone, or `s=` and
/// any value.
pub open spec fn is_signature_param(segment: Seq<char>) -> bool {
    segment.len() >= 1 && segment[0] == 's' && (segment.len() == 1 || segment[1] == '=')
}

/// The parameters that are not the signature, in their order.
pub open spec fn without_signature(params: Seq<Seq<char>>) -> Seq<Seq<char>>
    decreases params.len(),
{
    if params.len() == 0 {
        params
    } else if is_signature_param(params.last()) {
        without_signature(params.drop_last())
    } else {
        without_signature(params.drop_last()).push(params.last())
    }
}

/// Parameters put together again, with `&` between them.
pub open spec fn joined(params: Seq<Seq<char>>) -> Seq<char>
    decreases params.len(),
{
    if params.len() == 0 {
        Seq::empty()
    } else if params.len() == 1 {
        params[0]
    } else {
        joined(params.drop_last()) + seq!['&'] + params.last()
    }
}

/// A query without its signature parameter, wherever in the query it stands.
pub open spec fn strip_signature(query: Seq<char>) -> Seq<char> {
    joined(without_signature(segments(query)))
}

/// The text that a signature is made over: the salt, a slash, the image key,
/// a question mark, the query without its signature parameter.
pub open spec fn signed_text(salt: Seq<char>, image_key: Seq<char>, query: Seq<char>) -> Seq<char> {
    salt + seq!['/'] + image_key + seq!['?'] + strip_signature(query)
}

/// The signature that a request must carry: the MD5 digest of the signed
/// text's UTF-8 bytes, in lower-case hexadecimal.
pub open spec fn expected_signature(salt: Seq<char>, image_key: Seq<char>, query: Seq<char>) -> Seq<char> {
    hex_encode(md5_sum(encode_utf8(signed_text(salt, image_key, query)))@)
}

/// The signature and the time of validity that a request carries.
#[derive(Debug, Clone, PartialEq, Eq)]
pub struct SignedUrl {
    pub signature: Option<String>,
    /// Seconds since the epoch.
    pub expires: Option<u64>,
}

/// What a request carries of a signed URL, as texts.
pub struct SignedUrlView {
    pub signature: Option<Seq<char>>,
    pub expires: Option<u64>,
}

impl View for SignedUrl {
    type V = SignedUrlView;

    open spec fn view(&self) -> SignedUrlView {
        SignedUrlView {
            signature: match self.signature {
                Some(s) => Some(s@),
                None => None,
            },
            expires: self.expires,
        }
    }
}

/// What the check of a signature gives.
pub open spec fn signature_check(
    salt: Seq<char>,
    image_key: Seq<char>,
    query: Seq<char>,
    provided: Seq<char>,
) -> Result<(), ImageError> {
    if provided == expected_signature(salt, image_key, query) {
        Ok(())
    } else {
        Err(ImageError::SignatureInvalid)
    }
}

/// What the check of a time of validity gives: a request is expired from the
/// second to which it was valid.
pub open spec fn expiration_check(expires: u64, now: u64) -> Result<(), ImageError> {
    if now >= expires {
        Err(ImageError::Expired)
    } else {
        Ok(())
    }
}

/// What the checks of a request give. The signature is checked where the
/// request carries one and the deployment has a salt; the time of validity
/// where the request carries one. The signature comes first.
pub open spec fn request_check(
    salt: Option<Seq<char>>,
    image_key: Seq<char>,
    query: Seq<char>,
    signature: Option<Seq<char>>,
    expires: Option<u64>,
    now: u64,
) -> Result<(), ImageError> {
    if salt is Some && signature is Some && signature_check(
        salt->0,
        image_key,
        query,
        signature->0,
    ) is Err {
        Err(ImageError::SignatureInvalid)
    } else if expires is Some {
        expiration_check(expires->0, now)
    } else {
        Ok(())
    }
}

/// Whether `text[from..to]` is the signature parameter.
fn is_signature_at(text: &[char], from: usize, to: usize) -> (is: bool)
    requires
        from <= to <= text.len(),
    ensures
        is == is_signature_param(text@.subrange(from as int, to as int)),
{
    let ghost segment = text@.subrange(from as int, to as int);
    if to - from >= 1 && text[from] == 's' {
        assert(segment[0] == text@[from as int]);
        if to - from == 1 {
            true
        } else {
            assert(segment[1] == text@[from + 1]);
            text[from + 1] == '='
        }
    } else {
        assert(to - from >= 1 ==> segment[0] == text@[from as int]);
        false
    }
}

/// Appends a query without its signature parameter.
fn push_stripped(out: &mut String, query: &[char])
    ensures
        final(out)@ == old(out)@ + strip_signature(query@),
{
    let ghost mut done: Seq<Seq<char>> = Seq::empty();
    let mut wrote: bool = false;
    let mut finished: bool = false;
    let mut pos: usize = 0;
    assert(query@.skip(0) =~= query@);
    assert(done + segments(query@.skip(0)) =~= segments(query@));
    assert(old(out)@ + joined(without_signature(done)) =~= old(out)@);
    while !finished
        invariant
            pos <= query.len(),
            !finished ==> segments(query@) == done + segments(query@.skip(pos as int)),
            finished ==> segments(query@) == done,
            out@ == old(out)@ + joined(without_signature(done)),
            wrote == (without_signature(done).len() > 0),
        decreases query.len() - pos + (if finished { 0int } else { 1int }),
    {
        let ghost rest = query@.skip(pos as int);
        let end = find_char(query, pos, '&');
        let ghost segment = query@.subrange(pos as int, end as int);
        let ghost kept = without_signature(done);
        proof {
            lemma_first_index_props(rest, '&');
            assert(rest.take(end - pos) =~= segment);
            assert(done.push(segment).drop_last() =~= done);
            assert(done.push(segment).last() == segment);
        }
        if !is_signature_at(query, pos, end) {
            if wrote {
                push_char(out, '&');
            }
            push_chars(out, query, pos, end);
            proof {
                let kept_now = kept.push(segment);
                assert(without_signature(done.push(segment)) == kept_now);
                assert(kept_now.drop_last() =~= kept);
                assert(kept_now.last() == segment);
                if kept.len() == 0 {
                    assert(joined(kept) =~= Seq::<char>::empty());
                    assert(kept_now[0] == segment);
                    assert(out@ =~= old(out)@ + joined(kept_now));
                } else {
                    assert(joined(kept_now) == joined(kept) + seq!['&'] + segment);
                    assert(out@ =~= old(out)@ + joined(kept_now));
                }
            }
            wrote = true;
        }
        if end == query.len() {
            proof {
                assert(first_index(rest, '&') == rest.len());
                assert(segments(rest) == seq![rest]);
                assert(rest =~= segment);
                assert(done + seq![segment] =~= done.push(segment));
            }
            finished = true;
        } else {
            proof {
                assert(rest.skip(end - pos + 1) =~= query@.skip(end + 1));
                assert(segments(rest) == seq![segment] + segments(query@.skip(end + 1)));
                assert(done + (seq![segment] + segments(query@.skip(end + 1))) =~= done.push(segment)
                    + segments(query@.skip(end + 1)));
            }
            pos = end + 1;
        }
        proof {
            done = done.push(segment);
        }
    }
}

/// A query without its signature parameter: what is left of `a=1&s=SIG&b=2`
/// is `a=1&b=2`, of `s=SIG&a=1` it is `a=1`, of `s=SIG` nothing.
pub fn stripped_query(raw_query: &str) -> (stripped: String)
    ensures
        stripped@ == strip_signature(raw_query@),
{
    let query = chars_of(raw_query);
    let mut stripped = String::new();
    push_stripped(&mut stripped, &query);
    assert(Seq::<char>::empty() + strip_signature(raw_query@) =~= strip_signature(raw_query@));
    stripped
}

/// Checks the signature of a request: it must be, letter for letter, the
/// lower-case hexadecimal MD5 digest of the salt, a slash, the image key, a
/// question mark and the query without its signature parameter.
pub fn validate_signature(raw_query: &str, image_key: &str, secret_salt: &str, provided_signature: &str) -> (r:
    Result<(), ImageError>)
    ensures
        r == signature_check(secret_salt@, image_key@, raw_query@, provided_signature@),
{
    let query = chars_of(raw_query);
    let mut text = String::from_str(secret_salt);
    push_char(&mut text, '/');
    text.append(image_key);
    push_char(&mut text, '?');
    push_stripped(&mut text, &query);
    assert(text@ =~= signed_text(secret_salt@, image_key@, raw_query@));
    let digest = md5_digest(text.as_str().as_bytes());
    let expected = to_hex(digest.as_slice());
    let expected_chars = chars_of(expected.as_str());
    if same_text(&expected_chars, provided_signature) {
        Ok(())
    } else {
        Err(ImageError::SignatureInvalid)
    }
}

/// Checks the time to which a request is valid against the current time,
/// both in seconds since the epoch.
pub fn validate_expiration(expires_epoch_seconds: u64, now_epoch_seconds: u64) -> (r: Result<(), ImageError>)
    ensures
        r == expiration_check(expires_epoch_seconds, now_epoch_seconds),
{
    if now_epoch_seconds >= expires_epoch_seconds {
        Err(ImageError::Expired)
    } else {
        Ok(())
    }
}

/// The view of an optional text.
pub open spec fn text_of(s: Option<&str>) -> Option<Seq<char>> {
    match s {
        Some(t) => Some(t@),
        None => None,
    }
}

/// Runs the checks that a request asks for: both where it carries a
/// signature and a time of validity, one where it carries one, none where it
/// carries neither. Without a salt no signature is checked.
pub fn validate_request(
    raw_query: &str,
    image_key: &str,
    secret_salt: Option<&str>,
    signed: &SignedUrl,
    now_epoch_seconds: u64,
) -> (r: Result<(), ImageError>)
    ensures
        r == request_check(
            text_of(secret_salt),
            image_key@,
            raw_query@,
            signed@.signature,
            signed@.expires,
            now_epoch_seconds,
        ),
{
    match (secret_salt, &signed.signature) {
        (Some(salt), Some(signature)) => {
            if validate_signature(raw_query, image_key, salt, signature.as_str()).is_err() {
                return Err(ImageError::SignatureInvalid);
            }
        },
        _ => {},
    }
    match signed.expires {
        Some(expires) => validate_expiration(expires, now_epoch_seconds),
        None => Ok(()),
    }
}

/// Whether a text holds no `&`.
pub open spec fn unsplit(text: Seq<char>) -> bool {
    forall|i: int| 0 <= i < text.len() ==> #[trigger] text[i] != '&'
}

/// Whether each of the parameters holds no `&`.
pub open spec fn all_unsplit(params: Seq<Seq<char>>) -> bool {
    forall|i: int| 0 <= i < params.len() ==> unsplit(#[trigger] params[i])
}

/// A text without `&` is one parameter.
pub proof fn lemma_segments_whole(text: Seq<char>)
    requires
        unsplit(text),
    ensures
        segments(text) == seq![text],
{
    lemma_first_index_props(text, '&');
}

/// Two queries with `&` between them have the parameters of the first, then
/// those of the second.
pub proof fn lemma_segments_split(a: Seq<char>, b: Seq<char>)
    ensures
        segments(a + seq!['&'] + b) == segments(a) + segments(b),
    decreases a.len(),
{
    let whole = a + seq!['&'] + b;
    let end = first_index(a, '&');
    lemma_first_index_props(a, '&');
    assert forall|k: int| 0 <= k < end implies whole[k] != '&' by {
        assert(whole[k] == a[k]);
    }
    assert(whole[end] == '&') by {
        if end < a.len() {
            assert(whole[end] == a[end]);
        }
    }
    lemma_first_index(whole, '&', end);
    assert(whole.take(end) =~= a.take(end));
    if end < a.len() {
        let rest = a.skip(end + 1);
        assert(whole.skip(end + 1) =~= rest + seq!['&'] + b);
        lemma_segments_split(rest, b);
        assert(seq![a.take(end)] + (segments(rest) + segments(b)) =~= (seq![a.take(end)] + segments(
            rest,
        )) + segments(b));
    } else {
        assert(a.take(end) =~= a);
        assert(whole.skip(end + 1) =~= b);
    }
}

/// A query that is put together from parameters has these parameters.
pub proof fn lemma_segments_of_joined(params: Seq<Seq<char>>)
    requires
        params.len() >= 1,
        all_unsplit(params),
    ensures
        segments(joined(params)) == params,
    decreases params.len(),
{
    if params.len() == 1 {
        lemma_segments_whole(params[0]);
        assert(params =~= seq![params[0]]);
    } else {
        let front = params.drop_last();
        assert forall|i: int| 0 <= i < front.len() implies unsplit(#[trigger] front[i]) by {
            assert(front[i] == params[i]);
        }
        lemma_segments_of_joined(front);
        lemma_segments_split(joined(front), params.last());
        lemma_segments_whole(params.last());
        assert(front + seq![params.last()] =~= params);
    }
}

/// What is left of two lists of parameters in a row is what is left of the
/// first, then what is left of the second.
pub proof fn lemma_without_signature_concat(a: Seq<Seq<char>>, b: Seq<Seq<char>>)
    ensures
        without_signature(a + b) == without_signature(a) + without_signature(b),
    decreases b.len(),
{
    if b.len() == 0 {
        assert(a + b =~= a);
        assert(without_signature(a) + without_signature(b) =~= without_signature(a));
    } else {
        lemma_without_signature_concat(a, b.drop_last());
        assert((a + b).drop_last() =~= a + b.drop_last());
        assert((a + b).last() == b.last());
        if !is_signature_param(b.last()) {
            assert((without_signature(a) + without_signature(b.drop_last())).push(b.last())
                =~= without_signature(a) + without_signature(b.drop_last()).push(b.last()));
        }
    }
}

/// A signature parameter is stripped wherever it stands: a query put
/// together from parameters, with a signature parameter put in at any place,
/// first, last or between, is stripped to the other parameters without their
/// signature parameters. Nothing else is taken out or changed.
pub proof fn lemma_signature_stripped_anywhere(params: Seq<Seq<char>>, at: int, signature: Seq<char>)
    requires
        0 <= at <= params.len(),
        all_unsplit(params),
        unsplit(signature),
        is_signature_param(signature),
    ensures
        strip_signature(joined(params.insert(at, signature))) == joined(without_signature(params)),
        params.len() >= 1 ==> strip_signature(joined(params.insert(at, signature)))
            == strip_signature(joined(params)),
{
    let with = params.insert(at, signature);
    assert(with =~= params.take(at) + seq![signature] + params.skip(at));
    assert forall|i: int| 0 <= i < with.len() implies unsplit(#[trigger] with[i]) by {
        if i < at {
            assert(with[i] == params[i]);
        } else if i > at {
            assert(with[i] == params[i - 1]);
        }
    }
    lemma_segments_of_joined(with);
    lemma_without_signature_concat(params.take(at) + seq![signature], params.skip(at));
    lemma_without_signature_concat(params.take(at), seq![signature]);
    lemma_without_signature_concat(params.take(at), params.skip(at));
    assert(params.take(at) + params.skip(at) =~= params);
    assert(without_signature(seq![signature]) =~= Seq::<Seq<char>>::empty()) by {
        reveal_with_fuel(without_signature, 2);
        assert(seq![signature].last() == signature);
        assert(seq![signature].drop_last() =~= Seq::<Seq<char>>::empty());
    }
    assert(without_signature(params.take(at)) + Seq::<Seq<char>>::empty() =~= without_signature(
        params.take(at),
    ));
    if params.len() >= 1 {
        lemma_segments_of_joined(params);
    }
}

/// A query without signature parameter is signed as it is.
pub proof fn lemma_unsigned_query_kept(params: Seq<Seq<char>>)
    requires
        params.len() >= 1,
        all_unsplit(params),
        forall|i: int| 0 <= i < params.len() ==> !is_signature_param(#[trigger] params[i]),
    ensures
        strip_signature(joined(params)) == joined(params),
{
    lemma_segments_of_joined(params);
    lemma_nothing_to_strip(params);
}

proof fn lemma_nothing_to_strip(params: Seq<Seq<char>>)
    requires
        forall|i: int| 0 <= i < params.len() ==> !is_signature_param(#[trigger] params[i]),
    ensures
        without_signature(params) == params,
    decreases params.len(),
{
    if params.len() > 0 {
        let front = params.drop_last();
        assert forall|i: int| 0 <= i < front.len() implies !is_signature_param(#[trigger] front[i]) by {
            assert(front[i] == params[i]);
        }
        lemma_nothing_to_strip(front);
        assert(front.push(params.last()) =~= params);
    }
}

/// No parameter of a query holds an `&`.
pub proof fn lemma_segments_unsplit(query: Seq<char>)
    ensures
        all_unsplit(segments(query)),
        segments(query).len() >= 1,
    decreases query.len(),
{
    let end = first_index(query, '&');
    lemma_first_index_props(query, '&');
    if 0 <= end < query.len() {
        let head = query.take(end);
        let rest = segments(query.skip(end + 1));
        lemma_segments_unsplit(query.skip(end + 1));
        assert forall|i: int| 0 <= i < (seq![head] + rest).len() implies unsplit(
            #[trigger] (seq![head] + rest)[i],
        ) by {
            if i > 0 {
                assert((seq![head] + rest)[i] == rest[i - 1]);
            }
        }
    }
}

proof fn lemma_without_signature_kept(params: Seq<Seq<char>>)
    requires
        all_unsplit(params),
    ensures
        all_unsplit(without_signature(params)),
        forall|i: int|
            0 <= i < without_signature(params).len() ==> !is_signature_param(
                #[trigger] without_signature(params)[i],
            ),
    decreases params.len(),
{
    if params.len() > 0 {
        let front = params.drop_last();
        assert forall|i: int| 0 <= i < front.len() implies unsplit(#[trigger] front[i]) by {
            assert(front[i] == params[i]);
        }
        lemma_without_signature_kept(front);
        assert(unsplit(params.last()));
    }
}

/// What is left of a query holds no signature parameter, and stripping it
/// once more changes nothing.
pub proof fn lemma_stripped_is_unsigned(query: Seq<char>)
    ensures
        forall|i: int|
            0 <= i < segments(strip_signature(query)).len() ==> !is_signature_param(
                #[trigger] segments(strip_signature(query))[i],
            ),
        strip_signature(strip_signature(query)) == strip_signature(query),
{
    let kept = without_signature(segments(query));
    lemma_segments_unsplit(query);
    lemma_without_signature_kept(segments(query));
    if kept.len() >= 1 {
        lemma_segments_of_joined(kept);
        lemma_nothing_to_strip(kept);
    } else {
        let nothing = Seq::<char>::empty();
        assert(strip_signature(query) == nothing);
        lemma_segments_whole(nothing);
        assert(seq![nothing].last() == nothing);
        assert(seq![nothing].drop_last() =~= Seq::<Seq<char>>::empty());
        assert(without_signature(seq![nothing]) =~= seq![nothing]) by {
            reveal_with_fuel(without_signature, 2);
        }
        assert(joined(seq![nothing]) == nothing);
    }
}

} // verus!
