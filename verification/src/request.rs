//! The door of the pipeline: a request is read and checked before anything
//! is asked of the storage.

use vstd::prelude::*;
use vstd::string::*;
use crate::auth::{request_check, text_of, validate_request, SignedUrl, SignedUrlView};
use crate::cache_key::{cache_key, cache_key_spec};
use crate::errors::ImageError;
use crate::flow::{start_spec, FetchAction, FetchFlow, Store};
use crate::params::ImgParams;
use crate::query::{
    apply_pair, apply_pairs, apply_signed_pair, apply_signed_pairs, param_named, parse_epoch,
    parse_facepad, parse_params, parse_side, parse_signed, Pairs, Param, ParamError,
};

verus! {

/// Why a request was turned away.
#[derive(Debug, PartialEq, Eq)]
pub enum Rejection {
    /// Its query could not be read.
    Param(ParamError),
    /// Its signature is wrong, or it has expired.
    Auth(ImageError),
}

impl Rejection {
    /// The status of the response to a request that was turned away: 400
    /// where the query could not be read, 500 for every other failure.
    pub open spec fn status_spec(self) -> u16 {
        match self {
            Rejection::Param(_) => 400,
            Rejection::Auth(_) => 500,
        }
    }

    /// The status of the response to a request that was turned away.
    pub fn status_code(&self) -> (status: u16)
        ensures
            status == self.status_spec(),
    {
        match self {
            Rejection::Param(_) => 400,
            Rejection::Auth(e) => e.status_code(),
        }
    }
}

/// A request that was read and checked, at the beginning of its course.
#[derive(Debug, PartialEq, Eq)]
pub struct Accepted {
    pub params: ImgParams,
    /// The key of the transformed image in the cache.
    pub cached_key: String,
    pub flow: FetchFlow,
    /// What is to be done first: the read of the cache.
    pub first: FetchAction,
}

/// What becomes of a request: its parameters are read, then its signature
/// and time of validity, then these are checked. The first that fails turns
/// the request away.
pub open spec fn accept_spec(
    pairs: Pairs,
    raw_query: Seq<char>,
    img_key: Seq<char>,
    salt: Option<Seq<char>>,
    now: u64,
) -> Result<ImgParams, Rejection> {
    match parse_params(pairs) {
        Err(e) => Err(Rejection::Param(e)),
        Ok(params) => match parse_signed(pairs) {
            Err(e) => Err(Rejection::Param(e)),
            Ok(signed) => match request_check(
                salt,
                img_key,
                raw_query,
                signed.signature,
                signed.expires,
                now,
            ) {
                Err(e) => Err(Rejection::Auth(e)),
                Ok(_) => Ok(params),
            },
        },
    }
}

/// Reads and checks a request. `pairs` holds the names and values of its
/// query, `raw_query` the query as it was sent. An accepted request has
/// well-formed parameters and stands at the read of the cache, under the
/// cache key of its image and parameters. A request that is turned away has
/// no course: nothing was asked of the storage, and nothing will be.
pub fn accept_request(
    pairs: &Vec<(String, String)>,
    raw_query: &str,
    img_key: &str,
    secret_salt: Option<&str>,
    now_epoch_seconds: u64,
) -> (r: Result<Accepted, Rejection>)
    ensures
        match r {
            Ok(a) => {
                &&& accept_spec(
                    pairs.deep_view(),
                    raw_query@,
                    img_key@,
                    text_of(secret_salt),
                    now_epoch_seconds,
                ) == Ok::<ImgParams, Rejection>(a.params)
                &&& a.params.wf()
                &&& a.cached_key@ == cache_key_spec(a.params, img_key@)
                &&& a.flow == start_spec(a.params)
                &&& a.first == FetchAction::Read(Store::Cache)
            },
            Err(e) => accept_spec(
                pairs.deep_view(),
                raw_query@,
                img_key@,
                text_of(secret_salt),
                now_epoch_seconds,
            ) == Err::<ImgParams, Rejection>(e),
        },
{
    let params = match ImgParams::from_query(pairs) {
        Ok(p) => p,
        Err(e) => {
            return Err(Rejection::Param(e));
        },
    };
    let signed = match SignedUrl::from_query(pairs) {
        Ok(u) => u,
        Err(e) => {
            return Err(Rejection::Param(e));
        },
    };
    match validate_request(raw_query, img_key, secret_salt, &signed, now_epoch_seconds) {
        Ok(_) => {},
        Err(e) => {
            return Err(Rejection::Auth(e));
        },
    }
    let cached_key = cache_key(&params, img_key);
    let (flow, first) = FetchFlow::start(params);
    Ok(Accepted { params, cached_key, flow, first })
}

/// Whether a pair of a query names a number and gives it a value that the
/// number cannot take.
pub open spec fn malformed_number(name: Seq<char>, value: Seq<char>) -> bool {
    match param_named(name) {
        Some(Param::W) => parse_side(value) is None,
        Some(Param::H) => parse_side(value) is None,
        Some(Param::Facepad) => parse_facepad(value) is None,
        Some(Param::Expires) => parse_epoch(value) is None,
        _ => false,
    }
}

proof fn lemma_malformed_number_fails(pairs: Pairs, i: int, params: ImgParams, signed: SignedUrlView)
    requires
        0 <= i < pairs.len(),
        malformed_number(pairs[i].0, pairs[i].1),
    ensures
        apply_pairs(pairs, params) is Err || apply_signed_pairs(pairs, signed) is Err,
    decreases pairs.len(),
{
    if i > 0 {
        let rest = pairs.drop_first();
        assert(rest[i - 1] == pairs[i]);
        match (apply_pair(params, pairs[0].0, pairs[0].1), apply_signed_pair(signed, pairs[0].0, pairs[0].1)) {
            (Ok(p), Ok(s)) => {
                lemma_malformed_number_fails(rest, i - 1, p, s);
            },
            _ => {},
        }
    }
}

/// A query in which any number is malformed is turned away, whatever else
/// it holds: a width or height that is no number above zero, a face padding
/// that is no number within its limit, a time of validity that is not
/// written in digits. What is turned away is given no course, and so no
/// read of the storage.
pub proof fn lemma_malformed_number_rejected(
    pairs: Pairs,
    i: int,
    raw_query: Seq<char>,
    img_key: Seq<char>,
    salt: Option<Seq<char>>,
    now: u64,
)
    requires
        0 <= i < pairs.len(),
        malformed_number(pairs[i].0, pairs[i].1),
    ensures
        accept_spec(pairs, raw_query, img_key, salt, now) matches Err(Rejection::Param(_)),
{
    lemma_malformed_number_fails(
        pairs,
        i,
        ImgParams::empty(),
        SignedUrlView { signature: None, expires: None },
    );
}

} // verus!
